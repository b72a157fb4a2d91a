//! Keyboard lighting: brightness levels, colours, the built-in effect modes
//! and the message that sets an effect on the device.

use vstd::prelude::*;
use vstd::std_specs::convert::FromSpecImpl;

verus! {

/// Length of a lighting message.
pub const LED_MSG_LEN: usize = 17;

/// Keyboard backlight levels.
#[derive(Debug, Clone, Copy, PartialEq, Eq, Structural)]
pub enum LedBrightness {
    Off,
    Low,
    Med,
    High,
}

impl LedBrightness {
    /// The level's number on the wire.
    pub open spec fn spec_code(self) -> u8 {
        match self {
            LedBrightness::Off => 0,
            LedBrightness::Low => 1,
            LedBrightness::Med => 2,
            LedBrightness::High => 3,
        }
    }

    /// The level for a number; numbers without a level mean `Med`.
    pub open spec fn spec_from_code(code: u8) -> LedBrightness {
        match code {
            0 => LedBrightness::Off,
            1 => LedBrightness::Low,
            3 => LedBrightness::High,
            _ => LedBrightness::Med,
        }
    }

    /// The level one step up, wrapping from `High` to `Off`.
    pub open spec fn spec_next(self) -> LedBrightness {
        match self {
            LedBrightness::Off => LedBrightness::Low,
            LedBrightness::Low => LedBrightness::Med,
            LedBrightness::Med => LedBrightness::High,
            LedBrightness::High => LedBrightness::Off,
        }
    }

    /// The level one step down, wrapping from `Off` to `High`.
    pub open spec fn spec_prev(self) -> LedBrightness {
        match self {
            LedBrightness::Off => LedBrightness::High,
            LedBrightness::Low => LedBrightness::Off,
            LedBrightness::Med => LedBrightness::Low,
            LedBrightness::High => LedBrightness::Med,
        }
    }

    pub fn next(&self) -> (level: Self)
        ensures
            level == self.spec_next(),
            level.spec_code() == (self.spec_code() + 1) % 4,
    {
        match self {
            LedBrightness::Off => LedBrightness::Low,
            LedBrightness::Low => LedBrightness::Med,
            LedBrightness::Med => LedBrightness::High,
            LedBrightness::High => LedBrightness::Off,
        }
    }

    pub fn prev(&self) -> (level: Self)
        ensures
            level == self.spec_prev(),
            level.spec_code() == (self.spec_code() + 3) % 4,
    {
        match self {
            LedBrightness::Off => LedBrightness::High,
            LedBrightness::Low => LedBrightness::Off,
            LedBrightness::Med => LedBrightness::Low,
            LedBrightness::High => LedBrightness::Med,
        }
    }
}

impl Default for LedBrightness {
    fn default() -> (level: Self)
        ensures
            level == LedBrightness::Med,
    {
        LedBrightness::Med
    }
}

impl From<u8> for LedBrightness {
    fn from(bright: u8) -> (level: Self) {
        match bright {
            0 => LedBrightness::Off,
            1 => LedBrightness::Low,
            3 => LedBrightness::High,
            _ => LedBrightness::Med,
        }
    }
}

impl FromSpecImpl<u8> for LedBrightness {
    open spec fn obeys_from_spec() -> bool {
        true
    }

    open spec fn from_spec(bright: u8) -> Self {
        LedBrightness::spec_from_code(bright)
    }
}

impl From<LedBrightness> for u8 {
    fn from(level: LedBrightness) -> (code: u8) {
        match level {
            LedBrightness::Off => 0,
            LedBrightness::Low => 1,
            LedBrightness::Med => 2,
            LedBrightness::High => 3,
        }
    }
}

impl FromSpecImpl<LedBrightness> for u8 {
    open spec fn obeys_from_spec() -> bool {
        true
    }

    open spec fn from_spec(level: LedBrightness) -> u8 {
        level.spec_code()
    }
}

/// Stepping up and then down, or down and then up, gives the level back, and
/// a level's number leads back to the level.
pub proof fn lemma_brightness_steps(level: LedBrightness)
    ensures
        level.spec_next().spec_prev() == level,
        level.spec_prev().spec_next() == level,
        LedBrightness::spec_from_code(level.spec_code()) == level,
{
}

/// A colour as red, green and blue intensities.
#[derive(Debug, Clone, Copy, PartialEq, Eq, Structural)]
pub struct Colour {
    pub r: u8,
    pub g: u8,
    pub b: u8,
}

impl Default for Colour {
    fn default() -> (colour: Self)
        ensures
            colour == (Colour { r: 166, g: 0, b: 0 }),
    {
        Colour { r: 166, g: 0, b: 0 }
    }
}

impl From<&[u8; 3]> for Colour {
    fn from(c: &[u8; 3]) -> (colour: Self) {
        Colour { r: c[0], g: c[1], b: c[2] }
    }
}

impl FromSpecImpl<&[u8; 3]> for Colour {
    open spec fn obeys_from_spec() -> bool {
        true
    }

    open spec fn from_spec(c: &[u8; 3]) -> Self {
        Colour { r: c[0], g: c[1], b: c[2] }
    }
}

impl Colour {
    /// The three intensities in the order red, green, blue.
    pub fn to_bytes(&self) -> (bytes: [u8; 3])
        ensures
            bytes@ == seq![self.r, self.g, self.b],
    {
        let bytes: [u8; 3] = [self.r, self.g, self.b];
        assert(bytes@ =~= seq![self.r, self.g, self.b]);
        bytes
    }
}

/// How fast an effect animates.
#[derive(Debug, Clone, Copy, PartialEq, Eq, Structural)]
pub enum Speed {
    Low,
    Med,
    High,
}

impl Speed {
    /// The byte that stands for the speed in a lighting message.
    pub open spec fn spec_code(self) -> u8 {
        match self {
            Speed::Low => 0xe1,
            Speed::Med => 0xeb,
            Speed::High => 0xf5,
        }
    }

    /// The position of the speed among the three: 0, 1 or 2.
    pub open spec fn spec_rank(self) -> u8 {
        match self {
            Speed::Low => 0,
            Speed::Med => 1,
            Speed::High => 2,
        }
    }

    pub fn code(&self) -> (code: u8)
        ensures
            code == self.spec_code(),
    {
        match self {
            Speed::Low => 0xe1,
            Speed::Med => 0xeb,
            Speed::High => 0xf5,
        }
    }
}

impl Default for Speed {
    fn default() -> (speed: Self)
        ensures
            speed == Speed::Med,
    {
        Speed::Med
    }
}

impl From<Speed> for u8 {
    fn from(s: Speed) -> (rank: u8) {
        match s {
            Speed::Low => 0,
            Speed::Med => 1,
            Speed::High => 2,
        }
    }
}

impl FromSpecImpl<Speed> for u8 {
    open spec fn obeys_from_spec() -> bool {
        true
    }

    open spec fn from_spec(s: Speed) -> u8 {
        s.spec_rank()
    }
}

/// The direction in which an effect moves.
#[derive(Debug, Clone, Copy, PartialEq, Eq, Structural)]
pub enum Direction {
    Right,
    Left,
    Up,
    Down,
}

impl Direction {
    /// The byte that stands for the direction in a lighting message.
    pub open spec fn spec_code(self) -> u8 {
        match self {
            Direction::Right => 0,
            Direction::Left => 1,
            Direction::Up => 2,
            Direction::Down => 3,
        }
    }

    pub fn code(&self) -> (code: u8)
        ensures
            code == self.spec_code(),
    {
        match self {
            Direction::Right => 0,
            Direction::Left => 1,
            Direction::Up => 2,
            Direction::Down => 3,
        }
    }
}

impl Default for Direction {
    fn default() -> (direction: Self)
        ensures
            direction == Direction::Right,
    {
        Direction::Right
    }
}

/// The built-in effect modes. Their numbers are those of the device and
/// leave out 9.
#[derive(Debug, Clone, Copy, PartialEq, Eq, Hash, Structural)]
pub enum AuraModeNum {
    Static,
    Breathe,
    Strobe,
    Rainbow,
    Star,
    Rain,
    Highlight,
    Laser,
    Ripple,
    Pulse,
    Comet,
    Flash,
}

impl AuraModeNum {
    /// The mode's number on the wire.
    pub open spec fn spec_code(self) -> u8 {
        match self {
            AuraModeNum::Static => 0,
            AuraModeNum::Breathe => 1,
            AuraModeNum::Strobe => 2,
            AuraModeNum::Rainbow => 3,
            AuraModeNum::Star => 4,
            AuraModeNum::Rain => 5,
            AuraModeNum::Highlight => 6,
            AuraModeNum::Laser => 7,
            AuraModeNum::Ripple => 8,
            AuraModeNum::Pulse => 10,
            AuraModeNum::Comet => 11,
            AuraModeNum::Flash => 12,
        }
    }

    /// Whether a number is that of a mode.
    pub open spec fn spec_is_code(code: u8) -> bool {
        code <= 12 && code != 9
    }

    /// The mode whose number `code` is; nothing for 9 and for every number
    /// above 12, which are no mode's number.
    pub open spec fn spec_try_from_code(code: u8) -> Option<AuraModeNum> {
        match code {
            0 => Some(AuraModeNum::Static),
            1 => Some(AuraModeNum::Breathe),
            2 => Some(AuraModeNum::Strobe),
            3 => Some(AuraModeNum::Rainbow),
            4 => Some(AuraModeNum::Star),
            5 => Some(AuraModeNum::Rain),
            6 => Some(AuraModeNum::Highlight),
            7 => Some(AuraModeNum::Laser),
            8 => Some(AuraModeNum::Ripple),
            10 => Some(AuraModeNum::Pulse),
            11 => Some(AuraModeNum::Comet),
            12 => Some(AuraModeNum::Flash),
            _ => None,
        }
    }

    pub fn code(&self) -> (code: u8)
        ensures
            code == self.spec_code(),
            AuraModeNum::spec_is_code(code),
    {
        match self {
            AuraModeNum::Static => 0,
            AuraModeNum::Breathe => 1,
            AuraModeNum::Strobe => 2,
            AuraModeNum::Rainbow => 3,
            AuraModeNum::Star => 4,
            AuraModeNum::Rain => 5,
            AuraModeNum::Highlight => 6,
            AuraModeNum::Laser => 7,
            AuraModeNum::Ripple => 8,
            AuraModeNum::Pulse => 10,
            AuraModeNum::Comet => 11,
            AuraModeNum::Flash => 12,
        }
    }

    /// The mode with this number. A number that is no mode's number is
    /// refused: there is no mode that stands for it.
    pub fn try_from_code(code: u8) -> (mode: Option<Self>)
        ensures
            mode == AuraModeNum::spec_try_from_code(code),
            mode is Some <==> AuraModeNum::spec_is_code(code),
            mode matches Some(m) ==> m.spec_code() == code,
    {
        match code {
            0 => Some(AuraModeNum::Static),
            1 => Some(AuraModeNum::Breathe),
            2 => Some(AuraModeNum::Strobe),
            3 => Some(AuraModeNum::Rainbow),
            4 => Some(AuraModeNum::Star),
            5 => Some(AuraModeNum::Rain),
            6 => Some(AuraModeNum::Highlight),
            7 => Some(AuraModeNum::Laser),
            8 => Some(AuraModeNum::Ripple),
            10 => Some(AuraModeNum::Pulse),
            11 => Some(AuraModeNum::Comet),
            12 => Some(AuraModeNum::Flash),
            _ => None,
        }
    }
}

impl Default for AuraModeNum {
    fn default() -> (mode: Self)
        ensures
            mode == AuraModeNum::Static,
    {
        AuraModeNum::Static
    }
}

/// Modes and their numbers correspond one to one: a mode's number leads
/// back to the mode and is never 9; a number leads to a mode exactly when it
/// is that mode's number; 9 and every number above 12 lead to no mode.
pub proof fn lemma_mode_codes(mode: AuraModeNum, code: u8)
    ensures
        AuraModeNum::spec_try_from_code(mode.spec_code()) == Some(mode),
        AuraModeNum::spec_is_code(mode.spec_code()),
        mode.spec_code() != 9,
        AuraModeNum::spec_try_from_code(code) == Some(mode) <==> mode.spec_code() == code,
        AuraModeNum::spec_try_from_code(code) is Some <==> AuraModeNum::spec_is_code(code),
        AuraModeNum::spec_try_from_code(9) is None,
        code > 12 ==> AuraModeNum::spec_try_from_code(code) is None,
{
}

/// The part of the device that an effect applies to.
#[derive(Debug, Clone, Copy, PartialEq, Eq, Structural)]
pub enum AuraZone {
    /// Used if keyboard has no zones, or if setting all
    NoZone,
    /// Leftmost zone
    Key1,
    /// Zone after leftmost
    Key2,
    /// Zone second from right
    Key3,
    /// Rightmost zone
    Key4,
    /// Logo on the lid
    Logo,
    /// The left part of a lightbar
    BarLeft,
    /// The right part of a lightbar
    BarRight,
}

impl AuraZone {
    /// The byte that stands for the zone in a lighting message.
    pub open spec fn spec_code(self) -> u8 {
        match self {
            AuraZone::NoZone => 0,
            AuraZone::Key1 => 1,
            AuraZone::Key2 => 2,
            AuraZone::Key3 => 3,
            AuraZone::Key4 => 4,
            AuraZone::Logo => 5,
            AuraZone::BarLeft => 6,
            AuraZone::BarRight => 7,
        }
    }

    pub fn code(&self) -> (code: u8)
        ensures
            code == self.spec_code(),
    {
        match self {
            AuraZone::NoZone => 0,
            AuraZone::Key1 => 1,
            AuraZone::Key2 => 2,
            AuraZone::Key3 => 3,
            AuraZone::Key4 => 4,
            AuraZone::Logo => 5,
            AuraZone::BarLeft => 6,
            AuraZone::BarRight => 7,
        }
    }
}

impl Default for AuraZone {
    fn default() -> (zone: Self)
        ensures
            zone == AuraZone::NoZone,
    {
        AuraZone::NoZone
    }
}

/// A built-in effect with all its parameters.
#[derive(Debug, Clone, Copy, PartialEq, Eq, Structural)]
pub struct AuraEffect {
    /// The effect type
    pub mode: AuraModeNum,
    /// `AuraZone::NoZone` for no zone or zoneless keyboards
    pub zone: AuraZone,
    /// Primary colour for all modes
    pub colour1: Colour,
    /// Secondary colour in some modes like Breathing or Stars
    pub colour2: Colour,
    /// One of three speeds for modes that support speed
    pub speed: Speed,
    /// Up, down, left, right. Only Rainbow mode seems to use this
    pub direction: Direction,
}

/// The effect that a keyboard shows when nothing else was chosen.
pub open spec fn spec_default_effect() -> AuraEffect {
    AuraEffect {
        mode: AuraModeNum::Static,
        zone: AuraZone::NoZone,
        colour1: Colour { r: 166, g: 0, b: 0 },
        colour2: Colour { r: 0, g: 0, b: 0 },
        speed: Speed::Med,
        direction: Direction::Right,
    }
}

impl Default for AuraEffect {
    fn default() -> (effect: Self)
        ensures
            effect == spec_default_effect(),
    {
        AuraEffect {
            mode: AuraModeNum::Static,
            zone: AuraZone::NoZone,
            colour1: Colour { r: 166, g: 0, b: 0 },
            colour2: Colour { r: 0, g: 0, b: 0 },
            speed: Speed::Med,
            direction: Direction::Right,
        }
    }
}

impl AuraEffect {
    pub fn mode(&self) -> (mode: &AuraModeNum)
        ensures
            *mode == self.mode,
    {
        &self.mode
    }

    pub fn mode_num(&self) -> (code: u8)
        ensures
            code == self.mode.spec_code(),
    {
        self.mode.code()
    }

    /// The default effect with another mode.
    pub fn default_with_mode(mode: AuraModeNum) -> (effect: Self)
        ensures
            effect == (AuraEffect { mode, ..spec_default_effect() }),
    {
        AuraEffect {
            mode,
            zone: AuraZone::NoZone,
            colour1: Colour { r: 166, g: 0, b: 0 },
            colour2: Colour { r: 0, g: 0, b: 0 },
            speed: Speed::Med,
            direction: Direction::Right,
        }
    }

    pub fn zone(&self) -> (zone: AuraZone)
        ensures
            zone == self.zone,
    {
        self.zone
    }
}

impl From<AuraEffect> for AuraModeNum {
    fn from(value: AuraEffect) -> (mode: Self) {
        value.mode
    }
}

impl FromSpecImpl<AuraEffect> for AuraModeNum {
    open spec fn obeys_from_spec() -> bool {
        true
    }

    open spec fn from_spec(value: AuraEffect) -> Self {
        value.mode
    }
}

/// Which parameters of an effect a mode makes use of.
#[derive(Debug, Clone, Copy, PartialEq, Eq, Structural)]
pub struct AuraParameters {
    pub zone: bool,
    pub colour1: bool,
    pub colour2: bool,
    pub speed: bool,
    pub direction: bool,
}

impl AuraParameters {
    pub fn new(zone: bool, colour1: bool, colour2: bool, speed: bool, direction: bool) -> (p: Self)
        ensures
            p == (AuraParameters { zone, colour1, colour2, speed, direction }),
    {
        AuraParameters { zone, colour1, colour2, speed, direction }
    }
}

/// The parameters that `mode` makes use of. Every mode takes a zone.
pub open spec fn spec_allowed_parameters(mode: AuraModeNum) -> AuraParameters {
    AuraParameters {
        zone: true,
        colour1: !(mode == AuraModeNum::Strobe || mode == AuraModeNum::Rain || mode
            == AuraModeNum::Rainbow),
        colour2: mode == AuraModeNum::Breathe || mode == AuraModeNum::Star,
        speed: !(mode == AuraModeNum::Static || mode == AuraModeNum::Highlight || mode
            == AuraModeNum::Pulse || mode == AuraModeNum::Comet || mode == AuraModeNum::Flash),
        direction: mode == AuraModeNum::Rainbow || mode == AuraModeNum::Star,
    }
}

impl AuraEffect {
    /// A helper to provide detail on what effects have which parameters, e.g
    /// the static factory mode accepts only one colour.
    pub fn allowed_parameters(mode: AuraModeNum) -> (p: AuraParameters)
        ensures
            p == spec_allowed_parameters(mode),
    {
        match mode {
            AuraModeNum::Static
            | AuraModeNum::Highlight
            | AuraModeNum::Pulse
            | AuraModeNum::Comet
            | AuraModeNum::Flash => AuraParameters::new(true, true, false, false, false),
            AuraModeNum::Breathe => AuraParameters::new(true, true, true, true, false),
            AuraModeNum::Strobe | AuraModeNum::Rain => AuraParameters::new(
                true,
                false,
                false,
                true,
                false,
            ),
            AuraModeNum::Rainbow => AuraParameters::new(true, false, false, true, true),
            AuraModeNum::Star => AuraParameters::new(true, true, true, true, true),
            AuraModeNum::Laser | AuraModeNum::Ripple => AuraParameters::new(
                true,
                true,
                false,
                true,
                false,
            ),
        }
    }
}

/// The message that sets `effect`: two fixed bytes, zone, mode, the first
/// colour, speed, direction, a zero, the second colour and four zeroes.
pub open spec fn spec_effect_bytes(effect: AuraEffect) -> Seq<u8> {
    seq![
        0x5du8,
        0xb3u8,
        effect.zone.spec_code(),
        effect.mode.spec_code(),
        effect.colour1.r,
        effect.colour1.g,
        effect.colour1.b,
        effect.speed.spec_code(),
        effect.direction.spec_code(),
        0u8,
        effect.colour2.r,
        effect.colour2.g,
        effect.colour2.b,
        0u8,
        0u8,
        0u8,
        0u8,
    ]
}

/// Turns an effect into the message for the device. All fields are written,
/// whether the mode makes use of them or not.
pub fn encode_effect(aura: &AuraEffect) -> (msg: [u8; 17])
    ensures
        msg@ == spec_effect_bytes(*aura),
{
    let mut msg: [u8; 17] = [0u8; 17];
    msg[0] = 0x5d;
    msg[1] = 0xb3;
    msg[2] = aura.zone.code();
    msg[3] = aura.mode.code();
    msg[4] = aura.colour1.r;
    msg[5] = aura.colour1.g;
    msg[6] = aura.colour1.b;
    msg[7] = aura.speed.code();
    msg[8] = aura.direction.code();
    msg[10] = aura.colour2.r;
    msg[11] = aura.colour2.g;
    msg[12] = aura.colour2.b;
    assert(msg@ =~= spec_effect_bytes(*aura));
    msg
}

/// The message for the device as a vector.
pub fn encode_effect_vec(aura: &AuraEffect) -> (msg: Vec<u8>)
    ensures
        msg@ == spec_effect_bytes(*aura),
{
    let bytes = encode_effect(aura);
    let mut msg: Vec<u8> = Vec::with_capacity(LED_MSG_LEN);
    let mut i: usize = 0;
    while i < LED_MSG_LEN
        invariant
            i <= 17,
            msg@ == bytes@.take(i as int),
        decreases 17 - i,
    {
        msg.push(bytes[i]);
        i += 1;
        assert(msg@ =~= bytes@.take(i as int));
    }
    assert(msg@ =~= bytes@);
    msg
}

/// Two effects that differ in nothing but the zone have messages that
/// differ in nothing but byte 2, and two that differ in nothing but the mode
/// have messages that differ in nothing but byte 3. Those bytes differ
/// exactly when the zones, or the modes, do.
pub proof fn lemma_effect_bytes_local(a: AuraEffect, b: AuraEffect)
    ensures
        spec_effect_bytes(a).len() == 17,
        a == b ==> spec_effect_bytes(a) == spec_effect_bytes(b),
        b == (AuraEffect { zone: b.zone, ..a }) ==> forall|i: int|
            0 <= i < 17 && i != 2 ==> spec_effect_bytes(a)[i] == spec_effect_bytes(b)[i],
        b == (AuraEffect { mode: b.mode, ..a }) ==> forall|i: int|
            0 <= i < 17 && i != 3 ==> spec_effect_bytes(a)[i] == spec_effect_bytes(b)[i],
        a.zone == b.zone <==> spec_effect_bytes(a)[2] == spec_effect_bytes(b)[2],
        a.mode == b.mode <==> spec_effect_bytes(a)[3] == spec_effect_bytes(b)[3],
{
}

/// The position of the first `mode` in a list, or the length of the list
/// where it holds none.
pub open spec fn spec_mode_position(modes: Seq<AuraModeNum>, mode: AuraModeNum) -> int
    decreases modes.len(),
{
    if modes.len() == 0 {
        0
    } else if modes[0] == mode {
        0
    } else {
        1 + spec_mode_position(modes.skip(1), mode)
    }
}

/// The mode that follows `current` in the list of supported modes, the
/// first one after the last; nothing where `current` is not in the list.
pub open spec fn spec_next_mode(modes: Seq<AuraModeNum>, current: AuraModeNum) -> Option<
    AuraModeNum,
> {
    let at = spec_mode_position(modes, current);
    if at >= modes.len() {
        None
    } else if at + 1 >= modes.len() {
        Some(modes[0])
    } else {
        Some(modes[at + 1])
    }
}

/// The mode that comes before `current` in the list of supported modes, the
/// last one before the first; nothing where `current` is not in the list.
pub open spec fn spec_prev_mode(modes: Seq<AuraModeNum>, current: AuraModeNum) -> Option<
    AuraModeNum,
> {
    let at = spec_mode_position(modes, current);
    if at >= modes.len() {
        None
    } else if at == 0 {
        Some(modes[modes.len() - 1])
    } else {
        Some(modes[at - 1])
    }
}

fn mode_position(modes: &[AuraModeNum], mode: AuraModeNum) -> (at: usize)
    ensures
        at == spec_mode_position(modes@, mode),
        at <= modes@.len(),
{
    let mut i: usize = 0;
    assert(modes@.skip(0) =~= modes@);
    while i < modes.len()
        invariant
            i <= modes@.len(),
            spec_mode_position(modes@, mode) == i + spec_mode_position(modes@.skip(i as int), mode),
        decreases modes@.len() - i,
    {
        assert(modes@.skip(i as int)[0] == modes@[i as int]);
        if modes[i] == mode {
            return i;
        }
        assert(modes@.skip(i as int).skip(1) =~= modes@.skip(i + 1));
        i += 1;
    }
    i
}

/// The mode to switch to when stepping forward from `current`.
pub fn next_mode(modes: &[AuraModeNum], current: AuraModeNum) -> (mode: Option<AuraModeNum>)
    ensures
        mode == spec_next_mode(modes@, current),
{
    let at = mode_position(modes, current);
    if at >= modes.len() {
        None
    } else if at + 1 >= modes.len() {
        Some(modes[0])
    } else {
        Some(modes[at + 1])
    }
}

/// The mode to switch to when stepping back from `current`.
pub fn prev_mode(modes: &[AuraModeNum], current: AuraModeNum) -> (mode: Option<AuraModeNum>)
    ensures
        mode == spec_prev_mode(modes@, current),
{
    let at = mode_position(modes, current);
    if at >= modes.len() {
        None
    } else if at == 0 {
        Some(modes[modes.len() - 1])
    } else {
        Some(modes[at - 1])
    }
}

} // verus!
