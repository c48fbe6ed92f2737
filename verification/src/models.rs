//! The value objects of the controller's interface, and the JSON shape of
//! each of them.
//!
//! Every type here is read from a response; the few that a request carries
//! are written too. Member names are those of the wire.

use vstd::prelude::*;
use crate::json::{double_bits, member, object_value, same_text, single, Json};
use crate::wire::{decoded_member, decoded_optional, field, optional_field, Decode, Encode};

verus! {

/// The access token that pairing issues.
#[derive(Debug, Clone, PartialEq, Eq)]
pub struct Authorization {
    pub auth_token: String,
}

/// What a `Authorization` stands for, its texts and lists as mathematics.
pub struct AuthorizationModel {
    pub auth_token: Seq<char>,
}

impl Authorization {
    /// A token that a controller issued is not empty.
    pub open spec fn issued(self) -> bool {
        self.auth_token@.len() > 0
    }

    pub fn is_issued(&self) -> (r: bool)
        ensures
            r == self.issued(),
    {
        !self.auth_token.as_str().is_empty()
    }
}

impl DeepView for Authorization {
    type V = AuthorizationModel;

    open spec fn deep_view(&self) -> AuthorizationModel {
        AuthorizationModel { auth_token: self.auth_token@ }
    }
}

impl Decode for Authorization {
    open spec fn decoded(j: Json) -> Option<AuthorizationModel> {
        match decoded_member::<String>(j, "auth_token"@) {
            Some(auth_token) => Some(AuthorizationModel { auth_token }),
            None => None,
        }
    }

    fn from_json(v: &serde_json::Value) -> (r: Option<Authorization>) {
        let auth_token = field::<String>(v, "auth_token")?;
        Some(Authorization { auth_token })
    }
}

/// Whether the panels are lit.
#[derive(Debug, Clone, Copy, PartialEq, Eq)]
pub struct On {
    pub value: bool,
}

impl DeepView for On {
    type V = On;

    open spec fn deep_view(&self) -> On {
        *self
    }
}

impl Decode for On {
    open spec fn decoded(j: Json) -> Option<On> {
        match decoded_member::<bool>(j, "value"@) {
            Some(value) => Some(On { value }),
            None => None,
        }
    }

    fn from_json(v: &serde_json::Value) -> (r: Option<On>) {
        let value = field::<bool>(v, "value")?;
        Some(On { value })
    }
}

impl Encode for On {
    open spec fn encoded(x: On) -> Json {
        Json::single("value"@, Json::Bool(x.value))
    }

    fn to_json(&self) -> (v: serde_json::Value) {
        single("value", self.value.to_json())
    }

    proof fn round_trip(x: On) {
    }
}

/// A bounded numeric setting with its current value.
#[derive(Debug, Clone, Copy, PartialEq, Eq)]
pub struct Range {
    pub max: u32,
    pub min: u32,
    pub value: u32,
}

impl Range {
    /// The bound that the device keeps: `min <= value <= max`.
    pub open spec fn in_bounds(self) -> bool {
        self.min <= self.value <= self.max
    }

    pub fn is_in_bounds(&self) -> (r: bool)
        ensures
            r == self.in_bounds(),
    {
        self.min <= self.value && self.value <= self.max
    }
}

impl DeepView for Range {
    type V = Range;

    open spec fn deep_view(&self) -> Range {
        *self
    }
}

impl Decode for Range {
    open spec fn decoded(j: Json) -> Option<Range> {
        match (
            decoded_member::<u32>(j, "max"@),
            decoded_member::<u32>(j, "min"@),
            decoded_member::<u32>(j, "value"@),
        ) {
            (Some(max), Some(min), Some(value)) => Some(Range { max, min, value }),
            _ => None,
        }
    }

    fn from_json(v: &serde_json::Value) -> (r: Option<Range>) {
        let max = field::<u32>(v, "max")?;
        let min = field::<u32>(v, "min")?;
        let value = field::<u32>(v, "value")?;
        Some(Range { max, min, value })
    }
}

impl Encode for Range {
    open spec fn encoded(x: Range) -> Json {
        Json::Object(
            Map::empty().insert("max"@, Json::Int(x.max as int)).insert(
                "min"@,
                Json::Int(x.min as int),
            ).insert("value"@, Json::Int(x.value as int)),
        )
    }

    fn to_json(&self) -> (v: serde_json::Value) {
        let mut members = serde_json::Map::new();
        members.insert(String::from_str("max"), self.max.to_json());
        members.insert(String::from_str("min"), self.min.to_json());
        members.insert(String::from_str("value"), self.value.to_json());
        object_value(members)
    }

    proof fn round_trip(x: Range) {
        reveal_strlit("max");
        reveal_strlit("min");
        reveal_strlit("value");
        assert("max"@ != "min"@) by {
            assert("max"@[1] != "min"@[1]);
        }
        assert("max"@.len() != "value"@.len());
        assert("min"@.len() != "value"@.len());
    }
}

/// The orientation of the whole layout, in the shape of a range.
#[derive(Debug, Clone, Copy, PartialEq, Eq)]
pub struct GlobalOrientation {
    pub max: u32,
    pub min: u32,
    pub value: u32,
}

impl DeepView for GlobalOrientation {
    type V = GlobalOrientation;

    open spec fn deep_view(&self) -> GlobalOrientation {
        *self
    }
}

impl Decode for GlobalOrientation {
    open spec fn decoded(j: Json) -> Option<GlobalOrientation> {
        match (
            decoded_member::<u32>(j, "max"@),
            decoded_member::<u32>(j, "min"@),
            decoded_member::<u32>(j, "value"@),
        ) {
            (Some(max), Some(min), Some(value)) => Some(GlobalOrientation { max, min, value }),
            _ => None,
        }
    }

    fn from_json(v: &serde_json::Value) -> (r: Option<GlobalOrientation>) {
        let max = field::<u32>(v, "max")?;
        let min = field::<u32>(v, "min")?;
        let value = field::<u32>(v, "value")?;
        Some(GlobalOrientation { max, min, value })
    }
}

/// The kind of a panel, a number from 0 to 5 on the wire.
#[derive(Debug, Clone, Copy, PartialEq, Eq)]
pub enum ShapeType {
    Triangle,
    Rhythm,
    Square,
    ControlSquarePrimary,
    ControlSquarePassive,
    PowerSupply,
}

impl ShapeType {
    /// The shape with the wire number `n`.
    pub open spec fn numbered(n: u8) -> Option<ShapeType> {
        if n == 0 {
            Some(ShapeType::Triangle)
        } else if n == 1 {
            Some(ShapeType::Rhythm)
        } else if n == 2 {
            Some(ShapeType::Square)
        } else if n == 3 {
            Some(ShapeType::ControlSquarePrimary)
        } else if n == 4 {
            Some(ShapeType::ControlSquarePassive)
        } else if n == 5 {
            Some(ShapeType::PowerSupply)
        } else {
            None
        }
    }

    pub fn from_number(n: u8) -> (r: Option<ShapeType>)
        ensures
            r == Self::numbered(n),
    {
        if n == 0 {
            Some(ShapeType::Triangle)
        } else if n == 1 {
            Some(ShapeType::Rhythm)
        } else if n == 2 {
            Some(ShapeType::Square)
        } else if n == 3 {
            Some(ShapeType::ControlSquarePrimary)
        } else if n == 4 {
            Some(ShapeType::ControlSquarePassive)
        } else if n == 5 {
            Some(ShapeType::PowerSupply)
        } else {
            None
        }
    }
}

impl DeepView for ShapeType {
    type V = ShapeType;

    open spec fn deep_view(&self) -> ShapeType {
        *self
    }
}

impl Decode for ShapeType {
    open spec fn decoded(j: Json) -> Option<ShapeType> {
        match j.as_u8() {
            Some(n) => ShapeType::numbered(n),
            None => None,
        }
    }

    fn from_json(v: &serde_json::Value) -> (r: Option<ShapeType>) {
        let n = u8::from_json(v)?;
        ShapeType::from_number(n)
    }
}

/// Where one panel lies. Older firmware does not report the shape.
#[derive(Debug, Clone, Copy, PartialEq, Eq)]
pub struct Position {
    pub panel_id: u32,
    pub o: i32,
    pub x: i32,
    pub y: i32,
    pub shape_type: Option<ShapeType>,
}

impl DeepView for Position {
    type V = Position;

    open spec fn deep_view(&self) -> Position {
        *self
    }
}

impl Decode for Position {
    open spec fn decoded(j: Json) -> Option<Position> {
        match (
            decoded_member::<u32>(j, "panelId"@),
            decoded_member::<i32>(j, "o"@),
            decoded_member::<i32>(j, "x"@),
            decoded_member::<i32>(j, "y"@),
            decoded_optional::<ShapeType>(j, "shapeType"@),
        ) {
            (Some(panel_id), Some(o), Some(x), Some(y), Some(shape_type)) => Some(
                Position { panel_id, o, x, y, shape_type },
            ),
            _ => None,
        }
    }

    fn from_json(v: &serde_json::Value) -> (r: Option<Position>) {
        let panel_id = field::<u32>(v, "panelId")?;
        let o = field::<i32>(v, "o")?;
        let x = field::<i32>(v, "x")?;
        let y = field::<i32>(v, "y")?;
        let shape_type = optional_field::<ShapeType>(v, "shapeType")?;
        Some(Position { panel_id, o, x, y, shape_type })
    }
}

/// One colour of a palette.
#[derive(Debug, Clone, Copy, PartialEq, Eq)]
pub struct Palette {
    pub hue: u32,
    pub saturation: u32,
    pub brightness: u32,
}

impl DeepView for Palette {
    type V = Palette;

    open spec fn deep_view(&self) -> Palette {
        *self
    }
}

impl Decode for Palette {
    open spec fn decoded(j: Json) -> Option<Palette> {
        match (
            decoded_member::<u32>(j, "hue"@),
            decoded_member::<u32>(j, "saturation"@),
            decoded_member::<u32>(j, "brightness"@),
        ) {
            (Some(hue), Some(saturation), Some(brightness)) => Some(
                Palette { hue, saturation, brightness },
            ),
            _ => None,
        }
    }

    fn from_json(v: &serde_json::Value) -> (r: Option<Palette>) {
        let hue = field::<u32>(v, "hue")?;
        let saturation = field::<u32>(v, "saturation")?;
        let brightness = field::<u32>(v, "brightness")?;
        Some(Palette { hue, saturation, brightness })
    }
}

/// The command that sets the brightness: a step, a value, or a value
/// reached over a duration.
///
/// On the wire the variant is not named. It is told by the members: an
/// `increment` makes a step; else a `value` with a `duration` makes a
/// timed change; else a `value` alone sets the brightness.
#[derive(Debug, Clone, Copy, PartialEq, Eq)]
pub enum Brightness {
    Increment { increment: i32 },
    SetTo { value: u32 },
    SetWithDuration { value: u32, duration: u32 },
}

impl DeepView for Brightness {
    type V = Brightness;

    open spec fn deep_view(&self) -> Brightness {
        *self
    }
}

impl Decode for Brightness {
    open spec fn decoded(j: Json) -> Option<Brightness> {
        match decoded_member::<i32>(j, "increment"@) {
            Some(increment) => Some(Brightness::Increment { increment }),
            None => match (
                decoded_member::<u32>(j, "value"@),
                decoded_member::<u32>(j, "duration"@),
            ) {
                (Some(value), Some(duration)) => Some(
                    Brightness::SetWithDuration { value, duration },
                ),
                (Some(value), None) => Some(Brightness::SetTo { value }),
                _ => None,
            },
        }
    }

    fn from_json(v: &serde_json::Value) -> (r: Option<Brightness>) {
        match field::<i32>(v, "increment") {
            Some(increment) => Some(Brightness::Increment { increment }),
            None => {
                let value = field::<u32>(v, "value")?;
                match field::<u32>(v, "duration") {
                    Some(duration) => Some(Brightness::SetWithDuration { value, duration }),
                    None => Some(Brightness::SetTo { value }),
                }
            },
        }
    }
}

impl Encode for Brightness {
    open spec fn encoded(x: Brightness) -> Json {
        match x {
            Brightness::Increment { increment } => Json::single(
                "increment"@,
                Json::Int(increment as int),
            ),
            Brightness::SetTo { value } => Json::single("value"@, Json::Int(value as int)),
            Brightness::SetWithDuration { value, duration } => Json::Object(
                Map::empty().insert("value"@, Json::Int(value as int)).insert(
                    "duration"@,
                    Json::Int(duration as int),
                ),
            ),
        }
    }

    fn to_json(&self) -> (v: serde_json::Value) {
        match self {
            Brightness::Increment { increment } => single("increment", increment.to_json()),
            Brightness::SetTo { value } => single("value", value.to_json()),
            Brightness::SetWithDuration { value, duration } => {
                let mut members = serde_json::Map::new();
                members.insert(String::from_str("value"), value.to_json());
                members.insert(String::from_str("duration"), duration.to_json());
                object_value(members)
            },
        }
    }

    proof fn round_trip(x: Brightness) {
        lemma_command_keys_differ();
    }
}

/// The three member names of the setting commands are pairwise different.
pub proof fn lemma_command_keys_differ()
    ensures
        "increment"@ != "value"@,
        "increment"@ != "duration"@,
        "value"@ != "duration"@,
{
    reveal_strlit("increment");
    reveal_strlit("value");
    reveal_strlit("duration");
    assert("increment"@.len() == 9);
    assert("value"@.len() == 5);
    assert("duration"@.len() == 8);
}

/// A brightness command writes an `increment` exactly when it is a step,
/// and a `value` exactly when it is not: never both, never neither.
pub proof fn brightness_writes_one_kind(b: Brightness)
    ensures
        Brightness::encoded(b).member("increment"@) is Some <==> b is Increment,
        Brightness::encoded(b).member("value"@) is Some <==> !(b is Increment),
        Brightness::encoded(b).member("duration"@) is Some <==> b is SetWithDuration,
{
    lemma_command_keys_differ();
}

/// The command that sets hue, saturation or colour temperature: a step,
/// written as a bare signed number, or a value, written as an object with
/// the one member `value`.
#[derive(Debug, Clone, Copy, PartialEq, Eq)]
pub enum SetRange {
    Increment(i32),
    SetTo { value: u32 },
}

impl DeepView for SetRange {
    type V = SetRange;

    open spec fn deep_view(&self) -> SetRange {
        *self
    }
}

impl Decode for SetRange {
    open spec fn decoded(j: Json) -> Option<SetRange> {
        match j.as_i32() {
            Some(n) => Some(SetRange::Increment(n)),
            None => match decoded_member::<u32>(j, "value"@) {
                Some(value) => Some(SetRange::SetTo { value }),
                None => None,
            },
        }
    }

    fn from_json(v: &serde_json::Value) -> (r: Option<SetRange>) {
        match i32::from_json(v) {
            Some(n) => Some(SetRange::Increment(n)),
            None => {
                let value = field::<u32>(v, "value")?;
                Some(SetRange::SetTo { value })
            },
        }
    }
}

impl Encode for SetRange {
    open spec fn encoded(x: SetRange) -> Json {
        match x {
            SetRange::Increment(n) => Json::Int(n as int),
            SetRange::SetTo { value } => Json::single("value"@, Json::Int(value as int)),
        }
    }

    fn to_json(&self) -> (v: serde_json::Value) {
        match self {
            SetRange::Increment(n) => n.to_json(),
            SetRange::SetTo { value } => single("value", value.to_json()),
        }
    }

    proof fn round_trip(x: SetRange) {
    }
}

/// A range command is a bare number exactly when it is a step, and then
/// has no member at all; a value is an object whose only member is `value`.
pub proof fn set_range_writes_one_kind(s: SetRange)
    ensures
        SetRange::encoded(s) is Int <==> s is Increment,
        s is Increment ==> forall|key: Seq<char>| SetRange::encoded(s).member(key) is None,
        s is SetTo ==> forall|key: Seq<char>|
            (#[trigger] SetRange::encoded(s).member(key)) is Some <==> key == "value"@,
{
}

/// The kind of a plugin.
#[derive(Debug, Clone, Copy, PartialEq, Eq)]
pub enum PluginType {
    Color,
    Rhythm,
}

impl PluginType {
    /// The variant with the wire name `s`.
    pub open spec fn named(s: Seq<char>) -> Option<PluginType> {
        if s == "color"@ {
            Some(PluginType::Color)
        } else if s == "rhythm"@ {
            Some(PluginType::Rhythm)
        } else {
            None
        }
    }

    pub fn from_name(s: &str) -> (r: Option<PluginType>)
        ensures
            r == Self::named(s@),
    {
        if same_text(s, "color") {
            Some(PluginType::Color)
        } else if same_text(s, "rhythm") {
            Some(PluginType::Rhythm)
        } else {
            None
        }
    }
}

impl DeepView for PluginType {
    type V = PluginType;

    open spec fn deep_view(&self) -> PluginType {
        *self
    }
}

impl Decode for PluginType {
    open spec fn decoded(j: Json) -> Option<PluginType> {
        match j.as_text() {
            Some(s) => PluginType::named(s),
            None => None,
        }
    }

    fn from_json(v: &serde_json::Value) -> (r: Option<PluginType>) {
        match v.as_str() {
            Some(s) => PluginType::from_name(s),
            None => None,
        }
    }
}

/// The kind of an animation.
#[derive(Debug, Clone, Copy, PartialEq, Eq)]
pub enum AnimType {
    Custom,
    Explode,
    Fade,
    Flow,
    Highlight,
    Plugin,
    Random,
    Static,
    Wheel,
}

impl AnimType {
    /// The variant with the wire name `s`.
    pub open spec fn named(s: Seq<char>) -> Option<AnimType> {
        if s == "custom"@ {
            Some(AnimType::Custom)
        } else if s == "explode"@ {
            Some(AnimType::Explode)
        } else if s == "fade"@ {
            Some(AnimType::Fade)
        } else if s == "flow"@ {
            Some(AnimType::Flow)
        } else if s == "highlight"@ {
            Some(AnimType::Highlight)
        } else if s == "plugin"@ {
            Some(AnimType::Plugin)
        } else if s == "random"@ {
            Some(AnimType::Random)
        } else if s == "static"@ {
            Some(AnimType::Static)
        } else if s == "wheel"@ {
            Some(AnimType::Wheel)
        } else {
            None
        }
    }

    pub fn from_name(s: &str) -> (r: Option<AnimType>)
        ensures
            r == Self::named(s@),
    {
        if same_text(s, "custom") {
            Some(AnimType::Custom)
        } else if same_text(s, "explode") {
            Some(AnimType::Explode)
        } else if same_text(s, "fade") {
            Some(AnimType::Fade)
        } else if same_text(s, "flow") {
            Some(AnimType::Flow)
        } else if same_text(s, "highlight") {
            Some(AnimType::Highlight)
        } else if same_text(s, "plugin") {
            Some(AnimType::Plugin)
        } else if same_text(s, "random") {
            Some(AnimType::Random)
        } else if same_text(s, "static") {
            Some(AnimType::Static)
        } else if same_text(s, "wheel") {
            Some(AnimType::Wheel)
        } else {
            None
        }
    }
}

impl DeepView for AnimType {
    type V = AnimType;

    open spec fn deep_view(&self) -> AnimType {
        *self
    }
}

impl Decode for AnimType {
    open spec fn decoded(j: Json) -> Option<AnimType> {
        match j.as_text() {
            Some(s) => AnimType::named(s),
            None => None,
        }
    }

    fn from_json(v: &serde_json::Value) -> (r: Option<AnimType>) {
        match v.as_str() {
            Some(s) => AnimType::from_name(s),
            None => None,
        }
    }
}

/// A direction along the layout, as the user sees it.
#[derive(Debug, Clone, Copy, PartialEq, Eq)]
pub enum LinearDirection {
    Left,
    Right,
    Up,
    Down,
}

impl LinearDirection {
    /// The variant with the wire name `s`.
    pub open spec fn named(s: Seq<char>) -> Option<LinearDirection> {
        if s == "left"@ {
            Some(LinearDirection::Left)
        } else if s == "right"@ {
            Some(LinearDirection::Right)
        } else if s == "up"@ {
            Some(LinearDirection::Up)
        } else if s == "down"@ {
            Some(LinearDirection::Down)
        } else {
            None
        }
    }

    pub fn from_name(s: &str) -> (r: Option<LinearDirection>)
        ensures
            r == Self::named(s@),
    {
        if same_text(s, "left") {
            Some(LinearDirection::Left)
        } else if same_text(s, "right") {
            Some(LinearDirection::Right)
        } else if same_text(s, "up") {
            Some(LinearDirection::Up)
        } else if same_text(s, "down") {
            Some(LinearDirection::Down)
        } else {
            None
        }
    }
}

impl DeepView for LinearDirection {
    type V = LinearDirection;

    open spec fn deep_view(&self) -> LinearDirection {
        *self
    }
}

impl Decode for LinearDirection {
    open spec fn decoded(j: Json) -> Option<LinearDirection> {
        match j.as_text() {
            Some(s) => LinearDirection::named(s),
            None => None,
        }
    }

    fn from_json(v: &serde_json::Value) -> (r: Option<LinearDirection>) {
        match v.as_str() {
            Some(s) => LinearDirection::from_name(s),
            None => None,
        }
    }
}

/// A direction towards the centre of the layout or away from it.
#[derive(Debug, Clone, Copy, PartialEq, Eq)]
pub enum RadialDirection {
    In,
    Out,
}

impl RadialDirection {
    /// The variant with the wire name `s`.
    pub open spec fn named(s: Seq<char>) -> Option<RadialDirection> {
        if s == "in"@ {
            Some(RadialDirection::In)
        } else if s == "out"@ {
            Some(RadialDirection::Out)
        } else {
            None
        }
    }

    pub fn from_name(s: &str) -> (r: Option<RadialDirection>)
        ensures
            r == Self::named(s@),
    {
        if same_text(s, "in") {
            Some(RadialDirection::In)
        } else if same_text(s, "out") {
            Some(RadialDirection::Out)
        } else {
            None
        }
    }
}

impl DeepView for RadialDirection {
    type V = RadialDirection;

    open spec fn deep_view(&self) -> RadialDirection {
        *self
    }
}

impl Decode for RadialDirection {
    open spec fn decoded(j: Json) -> Option<RadialDirection> {
        match j.as_text() {
            Some(s) => RadialDirection::named(s),
            None => None,
        }
    }

    fn from_json(v: &serde_json::Value) -> (r: Option<RadialDirection>) {
        match v.as_str() {
            Some(s) => RadialDirection::from_name(s),
            None => None,
        }
    }
}

/// A direction around the centre of the layout: clockwise or counter-clockwise.
#[derive(Debug, Clone, Copy, PartialEq, Eq)]
pub enum RotationalDirection {
    Cw,
    Ccw,
}

impl RotationalDirection {
    /// The variant with the wire name `s`.
    pub open spec fn named(s: Seq<char>) -> Option<RotationalDirection> {
        if s == "cw"@ {
            Some(RotationalDirection::Cw)
        } else if s == "ccw"@ {
            Some(RotationalDirection::Ccw)
        } else {
            None
        }
    }

    pub fn from_name(s: &str) -> (r: Option<RotationalDirection>)
        ensures
            r == Self::named(s@),
    {
        if same_text(s, "cw") {
            Some(RotationalDirection::Cw)
        } else if same_text(s, "ccw") {
            Some(RotationalDirection::Ccw)
        } else {
            None
        }
    }
}

impl DeepView for RotationalDirection {
    type V = RotationalDirection;

    open spec fn deep_view(&self) -> RotationalDirection {
        *self
    }
}

impl Decode for RotationalDirection {
    open spec fn decoded(j: Json) -> Option<RotationalDirection> {
        match j.as_text() {
            Some(s) => RotationalDirection::named(s),
            None => None,
        }
    }

    fn from_json(v: &serde_json::Value) -> (r: Option<RotationalDirection>) {
        match v.as_str() {
            Some(s) => RotationalDirection::from_name(s),
            None => None,
        }
    }
}

/// The colour space of a palette.
#[derive(Debug, Clone, Copy, PartialEq, Eq)]
pub enum ColorType {
    HSB,
}

impl ColorType {
    /// The variant with the wire name `s`.
    pub open spec fn named(s: Seq<char>) -> Option<ColorType> {
        if s == "HSB"@ {
            Some(ColorType::HSB)
        } else {
            None
        }
    }

    pub fn from_name(s: &str) -> (r: Option<ColorType>)
        ensures
            r == Self::named(s@),
    {
        if same_text(s, "HSB") {
            Some(ColorType::HSB)
        } else {
            None
        }
    }
}

impl DeepView for ColorType {
    type V = ColorType;

    open spec fn deep_view(&self) -> ColorType {
        *self
    }
}

impl Decode for ColorType {
    open spec fn decoded(j: Json) -> Option<ColorType> {
        match j.as_text() {
            Some(s) => ColorType::named(s),
            None => None,
        }
    }

    fn from_json(v: &serde_json::Value) -> (r: Option<ColorType>) {
        match v.as_str() {
            Some(s) => ColorType::from_name(s),
            None => None,
        }
    }
}

/// One option of a plugin, written on the wire as an object with the
/// option's `name` and its `value`.
#[derive(Debug, Clone, Copy, PartialEq, Eq)]
pub enum PluginOption {
    /// The time to go from one palette colour to the next, in tenths of a
    /// second.
    TransitionTime(u16),
    /// Whether the animation starts over when it ends.
    Loop(bool),
    LinearDirection(LinearDirection),
    RadialDirection(RadialDirection),
    RotationalDirection(RotationalDirection),
    /// The time to dwell on a palette colour, in tenths of a second.
    DelayTime(u16),
    /// How many colours of the palette show at once.
    NColorsPerFrame(u8),
    /// The probability of the background colour: the 64 bits of the double
    /// that the number on the wire is read as.
    MainColorProb(u64),
}

impl DeepView for PluginOption {
    type V = PluginOption;

    open spec fn deep_view(&self) -> PluginOption {
        *self
    }
}

impl PluginOption {
    /// The member `value` of `j`, read as a double and given by its bits.
    pub open spec fn decoded_probability(j: Json) -> Option<u64> {
        match j.member("value"@) {
            Some(x) => x.as_double_bits(),
            None => None,
        }
    }

    /// The option named `name` whose value `j` holds.
    pub open spec fn decoded_as(name: Seq<char>, j: Json) -> Option<PluginOption> {
        if name == "transTime"@ {
            match decoded_member::<u16>(j, "value"@) {
                Some(t) => Some(PluginOption::TransitionTime(t)),
                None => None,
            }
        } else if name == "loop"@ {
            match decoded_member::<bool>(j, "value"@) {
                Some(b) => Some(PluginOption::Loop(b)),
                None => None,
            }
        } else if name == "linDirection"@ {
            match decoded_member::<LinearDirection>(j, "value"@) {
                Some(d) => Some(PluginOption::LinearDirection(d)),
                None => None,
            }
        } else if name == "radDirection"@ {
            match decoded_member::<RadialDirection>(j, "value"@) {
                Some(d) => Some(PluginOption::RadialDirection(d)),
                None => None,
            }
        } else if name == "rotDirection"@ {
            match decoded_member::<RotationalDirection>(j, "value"@) {
                Some(d) => Some(PluginOption::RotationalDirection(d)),
                None => None,
            }
        } else if name == "delayTime"@ {
            match decoded_member::<u16>(j, "value"@) {
                Some(t) => Some(PluginOption::DelayTime(t)),
                None => None,
            }
        } else if name == "nColorsPerFrame"@ {
            match decoded_member::<u8>(j, "value"@) {
                Some(n) => Some(PluginOption::NColorsPerFrame(n)),
                None => None,
            }
        } else if name == "mainColorProb"@ {
            match Self::decoded_probability(j) {
                Some(bits) => Some(PluginOption::MainColorProb(bits)),
                None => None,
            }
        } else {
            None
        }
    }
}

impl Decode for PluginOption {
    open spec fn decoded(j: Json) -> Option<PluginOption> {
        match decoded_member::<String>(j, "name"@) {
            Some(name) => PluginOption::decoded_as(name, j),
            None => None,
        }
    }

    fn from_json(v: &serde_json::Value) -> (r: Option<PluginOption>) {
        let name = field::<String>(v, "name")?;
        let name = name.as_str();
        if same_text(name, "transTime") {
            let t = field::<u16>(v, "value")?;
            Some(PluginOption::TransitionTime(t))
        } else if same_text(name, "loop") {
            let b = field::<bool>(v, "value")?;
            Some(PluginOption::Loop(b))
        } else if same_text(name, "linDirection") {
            let d = field::<LinearDirection>(v, "value")?;
            Some(PluginOption::LinearDirection(d))
        } else if same_text(name, "radDirection") {
            let d = field::<RadialDirection>(v, "value")?;
            Some(PluginOption::RadialDirection(d))
        } else if same_text(name, "rotDirection") {
            let d = field::<RotationalDirection>(v, "value")?;
            Some(PluginOption::RotationalDirection(d))
        } else if same_text(name, "delayTime") {
            let t = field::<u16>(v, "value")?;
            Some(PluginOption::DelayTime(t))
        } else if same_text(name, "nColorsPerFrame") {
            let n = field::<u8>(v, "value")?;
            Some(PluginOption::NColorsPerFrame(n))
        } else if same_text(name, "mainColorProb") {
            let x = member(v, "value")?;
            let bits = double_bits(x)?;
            Some(PluginOption::MainColorProb(bits))
        } else {
            None
        }
    }
}

/// The state of the panels: power, brightness, colour.
#[derive(Debug, Clone, PartialEq, Eq)]
pub struct State {
    pub color_mode: String,
    pub brightness: Range,
    pub ct: Range,
    pub hue: Range,
    pub sat: Range,
    pub on: On,
}

/// What a `State` stands for, its texts and lists as mathematics.
pub struct StateModel {
    pub color_mode: Seq<char>,
    pub brightness: Range,
    pub ct: Range,
    pub hue: Range,
    pub sat: Range,
    pub on: On,
}

impl DeepView for State {
    type V = StateModel;

    open spec fn deep_view(&self) -> StateModel {
        StateModel {
            color_mode: self.color_mode.deep_view(),
            brightness: self.brightness.deep_view(),
            ct: self.ct.deep_view(),
            hue: self.hue.deep_view(),
            sat: self.sat.deep_view(),
            on: self.on.deep_view(),
        }
    }
}

impl Decode for State {
    open spec fn decoded(j: Json) -> Option<StateModel> {
        match (
            decoded_member::<String>(j, "colorMode"@),
            decoded_member::<Range>(j, "brightness"@),
            decoded_member::<Range>(j, "ct"@),
            decoded_member::<Range>(j, "hue"@),
            decoded_member::<Range>(j, "sat"@),
            decoded_member::<On>(j, "on"@),
        ) {
            (Some(color_mode), Some(brightness), Some(ct), Some(hue), Some(sat), Some(on)) => Some(
                StateModel { color_mode, brightness, ct, hue, sat, on },
            ),
            _ => None,
        }
    }

    fn from_json(v: &serde_json::Value) -> (r: Option<State>) {
        let color_mode = field::<String>(v, "colorMode")?;
        let brightness = field::<Range>(v, "brightness")?;
        let ct = field::<Range>(v, "ct")?;
        let hue = field::<Range>(v, "hue")?;
        let sat = field::<Range>(v, "sat")?;
        let on = field::<On>(v, "on")?;
        Some(State { color_mode, brightness, ct, hue, sat, on })
    }
}

/// The names of the effects that the controller knows, and the one that runs.
#[derive(Debug, Clone, PartialEq, Eq)]
pub struct Effects {
    pub effects_list: Vec<String>,
    pub select: String,
}

/// What a `Effects` stands for, its texts and lists as mathematics.
pub struct EffectsModel {
    pub effects_list: Seq<Seq<char>>,
    pub select: Seq<char>,
}

impl DeepView for Effects {
    type V = EffectsModel;

    open spec fn deep_view(&self) -> EffectsModel {
        EffectsModel {
            effects_list: self.effects_list.deep_view(),
            select: self.select.deep_view(),
        }
    }
}

impl Decode for Effects {
    open spec fn decoded(j: Json) -> Option<EffectsModel> {
        match (
            decoded_member::<Vec<String>>(j, "effectsList"@),
            decoded_member::<String>(j, "select"@),
        ) {
            (Some(effects_list), Some(select)) => Some(
                EffectsModel { effects_list, select },
            ),
            _ => None,
        }
    }

    fn from_json(v: &serde_json::Value) -> (r: Option<Effects>) {
        let effects_list = field::<Vec<String>>(v, "effectsList")?;
        let select = field::<String>(v, "select")?;
        Some(Effects { effects_list, select })
    }
}

/// The panels and where each of them lies.
#[derive(Debug, Clone, PartialEq, Eq)]
pub struct Layout {
    pub num_panels: u32,
    pub side_length: u32,
    pub position_data: Vec<Position>,
}

/// What a `Layout` stands for, its texts and lists as mathematics.
pub struct LayoutModel {
    pub num_panels: u32,
    pub side_length: u32,
    pub position_data: Seq<Position>,
}

impl DeepView for Layout {
    type V = LayoutModel;

    open spec fn deep_view(&self) -> LayoutModel {
        LayoutModel {
            num_panels: self.num_panels.deep_view(),
            side_length: self.side_length.deep_view(),
            position_data: self.position_data.deep_view(),
        }
    }
}

impl Decode for Layout {
    open spec fn decoded(j: Json) -> Option<LayoutModel> {
        match (
            decoded_member::<u32>(j, "numPanels"@),
            decoded_member::<u32>(j, "sideLength"@),
            decoded_member::<Vec<Position>>(j, "positionData"@),
        ) {
            (Some(num_panels), Some(side_length), Some(position_data)) => Some(
                LayoutModel { num_panels, side_length, position_data },
            ),
            _ => None,
        }
    }

    fn from_json(v: &serde_json::Value) -> (r: Option<Layout>) {
        let num_panels = field::<u32>(v, "numPanels")?;
        let side_length = field::<u32>(v, "sideLength")?;
        let position_data = field::<Vec<Position>>(v, "positionData")?;
        Some(Layout { num_panels, side_length, position_data })
    }
}

/// The layout of the panels and its orientation.
#[derive(Debug, Clone, PartialEq, Eq)]
pub struct PanelLayout {
    pub global_orientation: GlobalOrientation,
    pub layout: Layout,
}

/// What a `PanelLayout` stands for, its texts and lists as mathematics.
pub struct PanelLayoutModel {
    pub global_orientation: GlobalOrientation,
    pub layout: LayoutModel,
}

impl DeepView for PanelLayout {
    type V = PanelLayoutModel;

    open spec fn deep_view(&self) -> PanelLayoutModel {
        PanelLayoutModel {
            global_orientation: self.global_orientation.deep_view(),
            layout: self.layout.deep_view(),
        }
    }
}

impl Decode for PanelLayout {
    open spec fn decoded(j: Json) -> Option<PanelLayoutModel> {
        match (
            decoded_member::<GlobalOrientation>(j, "globalOrientation"@),
            decoded_member::<Layout>(j, "layout"@),
        ) {
            (Some(global_orientation), Some(layout)) => Some(
                PanelLayoutModel { global_orientation, layout },
            ),
            _ => None,
        }
    }

    fn from_json(v: &serde_json::Value) -> (r: Option<PanelLayout>) {
        let global_orientation = field::<GlobalOrientation>(v, "globalOrientation")?;
        let layout = field::<Layout>(v, "layout")?;
        Some(PanelLayout { global_orientation, layout })
    }
}

/// All that the controller tells of itself.
#[derive(Debug, Clone, PartialEq, Eq)]
pub struct PanelInfo {
    pub name: String,
    pub manufacturer: String,
    pub model: String,
    pub firmware_version: String,
    pub serial_number: String,
    pub state: State,
    pub effects: Effects,
    pub panel_layout: PanelLayout,
}

/// What a `PanelInfo` stands for, its texts and lists as mathematics.
pub struct PanelInfoModel {
    pub name: Seq<char>,
    pub manufacturer: Seq<char>,
    pub model: Seq<char>,
    pub firmware_version: Seq<char>,
    pub serial_number: Seq<char>,
    pub state: StateModel,
    pub effects: EffectsModel,
    pub panel_layout: PanelLayoutModel,
}

impl DeepView for PanelInfo {
    type V = PanelInfoModel;

    open spec fn deep_view(&self) -> PanelInfoModel {
        PanelInfoModel {
            name: self.name.deep_view(),
            manufacturer: self.manufacturer.deep_view(),
            model: self.model.deep_view(),
            firmware_version: self.firmware_version.deep_view(),
            serial_number: self.serial_number.deep_view(),
            state: self.state.deep_view(),
            effects: self.effects.deep_view(),
            panel_layout: self.panel_layout.deep_view(),
        }
    }
}

impl Decode for PanelInfo {
    open spec fn decoded(j: Json) -> Option<PanelInfoModel> {
        match (
            decoded_member::<String>(j, "name"@),
            decoded_member::<String>(j, "manufacturer"@),
            decoded_member::<String>(j, "model"@),
            decoded_member::<String>(j, "firmwareVersion"@),
            decoded_member::<String>(j, "serialNo"@),
            decoded_member::<State>(j, "state"@),
            decoded_member::<Effects>(j, "effects"@),
            decoded_member::<PanelLayout>(j, "panelLayout"@),
        ) {
            (Some(name), Some(manufacturer), Some(model), Some(firmware_version), Some(serial_number), Some(state), Some(effects), Some(panel_layout)) => Some(
                PanelInfoModel { name, manufacturer, model, firmware_version, serial_number, state, effects, panel_layout },
            ),
            _ => None,
        }
    }

    fn from_json(v: &serde_json::Value) -> (r: Option<PanelInfo>) {
        let name = field::<String>(v, "name")?;
        let manufacturer = field::<String>(v, "manufacturer")?;
        let model = field::<String>(v, "model")?;
        let firmware_version = field::<String>(v, "firmwareVersion")?;
        let serial_number = field::<String>(v, "serialNo")?;
        let state = field::<State>(v, "state")?;
        let effects = field::<Effects>(v, "effects")?;
        let panel_layout = field::<PanelLayout>(v, "panelLayout")?;
        Some(PanelInfo { name, manufacturer, model, firmware_version, serial_number, state, effects, panel_layout })
    }
}

/// One effect with its parameters. The three plugin members may be missing.
#[derive(Debug, Clone, PartialEq, Eq)]
pub struct Effect {
    pub animation_type: AnimType,
    pub color_type: ColorType,
    pub name: String,
    pub palette: Vec<Palette>,
    pub plugin_type: Option<PluginType>,
    pub plugin_options: Option<Vec<PluginOption>>,
    pub plugin_uuid: Option<String>,
    pub version: String,
}

/// What a `Effect` stands for, its texts and lists as mathematics.
pub struct EffectModel {
    pub animation_type: AnimType,
    pub color_type: ColorType,
    pub name: Seq<char>,
    pub palette: Seq<Palette>,
    pub plugin_type: Option<PluginType>,
    pub plugin_options: Option<Seq<PluginOption>>,
    pub plugin_uuid: Option<Seq<char>>,
    pub version: Seq<char>,
}

impl DeepView for Effect {
    type V = EffectModel;

    open spec fn deep_view(&self) -> EffectModel {
        EffectModel {
            animation_type: self.animation_type.deep_view(),
            color_type: self.color_type.deep_view(),
            name: self.name.deep_view(),
            palette: self.palette.deep_view(),
            plugin_type: self.plugin_type.deep_view(),
            plugin_options: self.plugin_options.deep_view(),
            plugin_uuid: self.plugin_uuid.deep_view(),
            version: self.version.deep_view(),
        }
    }
}

impl Decode for Effect {
    open spec fn decoded(j: Json) -> Option<EffectModel> {
        match (
            decoded_member::<AnimType>(j, "animType"@),
            decoded_member::<ColorType>(j, "colorType"@),
            decoded_member::<String>(j, "animName"@),
            decoded_member::<Vec<Palette>>(j, "palette"@),
            decoded_optional::<PluginType>(j, "pluginType"@),
            decoded_optional::<Vec<PluginOption>>(j, "pluginOptions"@),
            decoded_optional::<String>(j, "pluginUuid"@),
            decoded_member::<String>(j, "version"@),
        ) {
            (Some(animation_type), Some(color_type), Some(name), Some(palette), Some(plugin_type), Some(plugin_options), Some(plugin_uuid), Some(version)) => Some(
                EffectModel { animation_type, color_type, name, palette, plugin_type, plugin_options, plugin_uuid, version },
            ),
            _ => None,
        }
    }

    fn from_json(v: &serde_json::Value) -> (r: Option<Effect>) {
        let animation_type = field::<AnimType>(v, "animType")?;
        let color_type = field::<ColorType>(v, "colorType")?;
        let name = field::<String>(v, "animName")?;
        let palette = field::<Vec<Palette>>(v, "palette")?;
        let plugin_type = optional_field::<PluginType>(v, "pluginType")?;
        let plugin_options = optional_field::<Vec<PluginOption>>(v, "pluginOptions")?;
        let plugin_uuid = optional_field::<String>(v, "pluginUuid")?;
        let version = field::<String>(v, "version")?;
        Some(Effect { animation_type, color_type, name, palette, plugin_type, plugin_options, plugin_uuid, version })
    }
}

/// The catalogue of effects.
#[derive(Debug, Clone, PartialEq, Eq)]
pub struct Animations {
    pub animations: Vec<Effect>,
}

/// What a `Animations` stands for, its texts and lists as mathematics.
pub struct AnimationsModel {
    pub animations: Seq<EffectModel>,
}

impl DeepView for Animations {
    type V = AnimationsModel;

    open spec fn deep_view(&self) -> AnimationsModel {
        AnimationsModel {
            animations: self.animations.deep_view(),
        }
    }
}

impl Decode for Animations {
    open spec fn decoded(j: Json) -> Option<AnimationsModel> {
        match (
            decoded_member::<Vec<Effect>>(j, "animations"@),
        ) {
            (Some(animations),) => Some(
                AnimationsModel { animations },
            ),
            _ => None,
        }
    }

    fn from_json(v: &serde_json::Value) -> (r: Option<Animations>) {
        let animations = field::<Vec<Effect>>(v, "animations")?;
        Some(Animations { animations })
    }
}

impl StateModel {
    /// Each of the four settings keeps its bounds.
    pub open spec fn in_bounds(self) -> bool {
        self.brightness.in_bounds() && self.ct.in_bounds() && self.hue.in_bounds()
            && self.sat.in_bounds()
    }
}

impl State {
    pub fn is_in_bounds(&self) -> (r: bool)
        ensures
            r == self.deep_view().in_bounds(),
    {
        self.brightness.is_in_bounds() && self.ct.is_in_bounds() && self.hue.is_in_bounds()
            && self.sat.is_in_bounds()
    }
}

impl EffectsModel {
    /// The running effect, where one is named, is one of the list.
    pub open spec fn selection_listed(self) -> bool {
        self.select.len() == 0 || self.effects_list.contains(self.select)
    }
}

impl Effects {
    pub fn is_selection_listed(&self) -> (r: bool)
        ensures
            r == self.deep_view().selection_listed(),
    {
        if self.select.as_str().is_empty() {
            return true;
        }
        let ghost names = self.deep_view().effects_list;
        let mut i: usize = 0;
        while i < self.effects_list.len()
            invariant
                i <= self.effects_list.len(),
                names == self.deep_view().effects_list,
                forall|k: int| 0 <= k < i ==> names[k] != self.select@,
            decreases self.effects_list.len() - i,
        {
            if same_text(self.effects_list[i].as_str(), self.select.as_str()) {
                assert(names[i as int] == self.select@);
                return true;
            }
            i += 1;
        }
        false
    }
}

impl EffectModel {
    /// The options and the identifier of a plugin are there only where the
    /// kind of the plugin is.
    pub open spec fn plugin_members_gated(self) -> bool {
        self.plugin_type is None ==> self.plugin_options is None && self.plugin_uuid is None
    }
}

impl Effect {
    pub fn are_plugin_members_gated(&self) -> (r: bool)
        ensures
            r == self.deep_view().plugin_members_gated(),
    {
        self.plugin_type.is_some() || (self.plugin_options.is_none() && self.plugin_uuid.is_none())
    }
}

} // verus!
