//! The curve of one fan: eight points of temperature and fan power, read
//! from and written to the attributes of the fan curve device.

use vstd::prelude::*;

use crate::fan_attr::{
    bytes_eq, enable_name, format_decimal, parse_decimal, pwm_str, spec_decimal, spec_enable_name,
    spec_parse_decimal, spec_point_name, spec_pwm_suffix, spec_temp_suffix, temp_str, Attribute,
    FanCurvePU,
};

verus! {

/// Number of points of a curve.
pub const CURVE_POINTS: usize = 8;

/// An attribute as contracts see it: the bytes of its name and of its value.
pub type AttrView = (Seq<u8>, Seq<u8>);

/// The names and values of a list of attributes.
pub open spec fn spec_attr_views(attrs: Seq<Attribute>) -> Seq<AttrView> {
    Seq::new(attrs.len(), |i: int| (attrs[i].name@, attrs[i].value@))
}

/// The value of the first attribute called `name`, if there is one.
pub open spec fn spec_lookup(attrs: Seq<AttrView>, name: Seq<u8>) -> Option<Seq<u8>>
    decreases attrs.len(),
{
    if attrs.len() == 0 {
        None
    } else if attrs[0].0 == name {
        Some(attrs[0].1)
    } else {
        spec_lookup(attrs.skip(1), name)
    }
}

/// The number that the first attribute called `name` holds, if there is
/// such an attribute and it holds a decimal number below 256.
pub open spec fn spec_number_at(attrs: Seq<AttrView>, name: Seq<u8>) -> Option<u8> {
    match spec_lookup(attrs, name) {
        Some(value) => spec_parse_decimal(value),
        None => None,
    }
}

/// The eight values of one kind of a fan's curve as the attributes give
/// them; where an attribute is missing or holds no number, the value of
/// `before` stays.
pub open spec fn spec_read_points(
    attrs: Seq<AttrView>,
    fan: FanCurvePU,
    suffix: Seq<u8>,
    before: Seq<u8>,
) -> Seq<u8> {
    Seq::new(
        8,
        |i: int|
            match spec_number_at(attrs, spec_point_name(fan, i, suffix)) {
                Some(value) => value,
                None => before[i],
            },
    )
}

/// The value of the enable attribute for a curve that is switched on, `1`,
/// or off, `2`.
pub open spec fn spec_enable_value(enabled: bool) -> Seq<u8> {
    if enabled {
        seq![0x31u8]
    } else {
        seq![0x32u8]
    }
}

/// The value that hands a fan back to the platform's own curve: `3`.
pub open spec fn spec_default_value() -> Seq<u8> {
    seq![0x33u8]
}

/// The curve of one fan.
#[derive(Debug, Clone, Copy, PartialEq, Eq)]
pub struct CurveData {
    pub fan: FanCurvePU,
    /// Fan power at each point.
    pub pwm: [u8; 8],
    /// Temperature at each point.
    pub temp: [u8; 8],
    pub enabled: bool,
}

/// The writes that put a curve on the device: the eight fan powers, the
/// eight temperatures, and last the enable attribute.
pub open spec fn spec_curve_requests(curve: CurveData) -> Seq<AttrView> {
    Seq::new(
        17,
        |i: int|
            if i < 8 {
                (spec_point_name(curve.fan, i, spec_pwm_suffix()), spec_decimal(curve.pwm@[i]))
            } else if i < 16 {
                (
                    spec_point_name(curve.fan, i - 8, spec_temp_suffix()),
                    spec_decimal(curve.temp@[i - 8]),
                )
            } else {
                (spec_enable_name(curve.fan), spec_enable_value(curve.enabled))
            },
    )
}

/// Finds the value of the first attribute called `name`.
pub fn lookup<'a>(attrs: &'a Vec<Attribute>, name: &[u8]) -> (value: Option<&'a Vec<u8>>)
    ensures
        match value {
            Some(v) => spec_lookup(spec_attr_views(attrs@), name@) == Some(v@),
            None => spec_lookup(spec_attr_views(attrs@), name@) is None,
        },
{
    let ghost views = spec_attr_views(attrs@);
    let mut i: usize = 0;
    assert(views.skip(0) =~= views);
    while i < attrs.len()
        invariant
            i <= attrs@.len(),
            views == spec_attr_views(attrs@),
            spec_lookup(views, name@) == spec_lookup(views.skip(i as int), name@),
        decreases attrs@.len() - i,
    {
        assert(views.skip(i as int)[0] == views[i as int]);
        if bytes_eq(attrs[i].name.as_slice(), name) {
            return Some(&attrs[i].value);
        }
        assert(views.skip(i as int).skip(1) =~= views.skip(i + 1));
        i += 1;
    }
    assert(views.skip(i as int).len() == 0);
    None
}

impl CurveData {
    /// A curve of zeroes for `fan`, switched off.
    pub fn new(fan: FanCurvePU) -> (curve: Self)
        ensures
            curve.fan == fan,
            !curve.enabled,
            curve.pwm@ == Seq::new(8, |i: int| 0u8),
            curve.temp@ == Seq::new(8, |i: int| 0u8),
    {
        let curve = CurveData { fan, pwm: [0u8; 8], temp: [0u8; 8], enabled: false };
        assert(curve.pwm@ =~= Seq::new(8, |i: int| 0u8));
        assert(curve.temp@ =~= Seq::new(8, |i: int| 0u8));
        curve
    }

    pub fn set_fan(&mut self, fan: FanCurvePU)
        ensures
            *final(self) == (CurveData { fan, ..*old(self) }),
    {
        self.fan = fan;
    }

    /// Takes the curve's points from the attributes of the device. A point
    /// whose attribute is missing or holds no number stays as it is.
    pub fn read_from_device(&mut self, attrs: &Vec<Attribute>)
        ensures
            final(self).fan == old(self).fan,
            final(self).enabled == old(self).enabled,
            final(self).pwm@ == spec_read_points(
                spec_attr_views(attrs@),
                old(self).fan,
                spec_pwm_suffix(),
                old(self).pwm@,
            ),
            final(self).temp@ == spec_read_points(
                spec_attr_views(attrs@),
                old(self).fan,
                spec_temp_suffix(),
                old(self).temp@,
            ),
    {
        let ghost views = spec_attr_views(attrs@);
        let fan = self.fan;
        let mut i: usize = 0;
        while i < CURVE_POINTS
            invariant
                i <= 8,
                views == spec_attr_views(attrs@),
                fan == old(self).fan,
                self.fan == old(self).fan,
                self.enabled == old(self).enabled,
                forall|k: int|
                    0 <= k < i ==> self.pwm@[k] == spec_read_points(
                        views,
                        fan,
                        spec_pwm_suffix(),
                        old(self).pwm@,
                    )[k],
                forall|k: int| i <= k < 8 ==> self.pwm@[k] == old(self).pwm@[k],
                forall|k: int|
                    0 <= k < i ==> self.temp@[k] == spec_read_points(
                        views,
                        fan,
                        spec_temp_suffix(),
                        old(self).temp@,
                    )[k],
                forall|k: int| i <= k < 8 ==> self.temp@[k] == old(self).temp@[k],
            decreases 8 - i,
        {
            let pwm_name = pwm_str(fan, i);
            if let Some(text) = lookup(attrs, pwm_name.as_slice()) {
                if let Some(value) = parse_decimal(text.as_slice()) {
                    self.pwm[i] = value;
                }
            }
            let temp_name = temp_str(fan, i);
            if let Some(text) = lookup(attrs, temp_name.as_slice()) {
                if let Some(value) = parse_decimal(text.as_slice()) {
                    self.temp[i] = value;
                }
            }
            i += 1;
        }
        assert(self.pwm@ =~= spec_read_points(views, fan, spec_pwm_suffix(), old(self).pwm@));
        assert(self.temp@ =~= spec_read_points(views, fan, spec_temp_suffix(), old(self).temp@));
    }

    /// The writes that put this curve on the device, in the order in which
    /// they are to be made. The enable attribute comes last, and is written
    /// whether the curve is switched on or off.
    pub fn write_to_device(&self) -> (requests: Vec<Attribute>)
        ensures
            spec_attr_views(requests@) == spec_curve_requests(*self),
    {
        let ghost want = spec_curve_requests(*self);
        let mut requests: Vec<Attribute> = Vec::with_capacity(17);
        let mut i: usize = 0;
        while i < CURVE_POINTS
            invariant
                i <= 8,
                want == spec_curve_requests(*self),
                requests@.len() == i,
                forall|k: int| 0 <= k < i ==> spec_attr_views(requests@)[k] == want[k],
            decreases 8 - i,
        {
            let name = pwm_str(self.fan, i);
            let value = format_decimal(self.pwm[i]);
            requests.push(Attribute { name, value });
            i += 1;
        }
        let mut j: usize = 0;
        while j < CURVE_POINTS
            invariant
                j <= 8,
                want == spec_curve_requests(*self),
                requests@.len() == 8 + j,
                forall|k: int| 0 <= k < 8 + j ==> spec_attr_views(requests@)[k] == want[k],
            decreases 8 - j,
        {
            let name = temp_str(self.fan, j);
            let value = format_decimal(self.temp[j]);
            requests.push(Attribute { name, value });
            j += 1;
        }
        let name = enable_name(self.fan);
        let mut value: Vec<u8> = Vec::new();
        value.push(if self.enabled { 0x31 } else { 0x32 });
        assert(value@ =~= spec_enable_value(self.enabled));
        requests.push(Attribute { name, value });
        assert(spec_attr_views(requests@) =~= want);
        requests
    }
}

impl Default for CurveData {
    fn default() -> (curve: Self)
        ensures
            curve.fan == FanCurvePU::CPU,
            !curve.enabled,
            curve.pwm@ == Seq::new(8, |i: int| 0u8),
            curve.temp@ == Seq::new(8, |i: int| 0u8),
    {
        CurveData::new(FanCurvePU::CPU)
    }
}

/// How far a temperature lies from the one of a point.
pub open spec fn spec_distance(temp: u8, at: i32) -> int {
    if at - temp >= 0 {
        at - temp
    } else {
        temp - at
    }
}

/// Whether `index` is the point of `temps` that lies nearest to `at`: the
/// first of those that lie nearest, and the first point of all where every
/// point lies 255 degrees away or more.
pub open spec fn spec_is_nearest(temps: Seq<u8>, at: i32, index: int) -> bool {
    &&& 0 <= index < temps.len()
    &&& if forall|k: int| 0 <= k < temps.len() ==> spec_distance(#[trigger] temps[k], at) >= 255 {
        index == 0
    } else {
        &&& spec_distance(temps[index], at) < 255
        &&& forall|k: int|
            0 <= k < index ==> spec_distance(#[trigger] temps[k], at) > spec_distance(
                temps[index],
                at,
            )
        &&& forall|k: int|
            0 <= k < temps.len() ==> spec_distance(#[trigger] temps[k], at) >= spec_distance(
                temps[index],
                at,
            )
    }
}

impl CurveData {
    /// The point whose temperature lies nearest to `at`.
    pub fn nearest_point(&self, at: i32) -> (index: usize)
        ensures
            spec_is_nearest(self.temp@, at, index as int),
    {
        let mut best: i64 = 255;
        let mut index: usize = 0;
        let mut i: usize = 0;
        while i < CURVE_POINTS
            invariant
                i <= 8,
                index < 8,
                0 <= best <= 255,
                forall|k: int| 0 <= k < i ==> spec_distance(#[trigger] self.temp@[k], at) >= best,
                best == 255 ==> index == 0,
                best < 255 ==> index < i && spec_distance(self.temp@[index as int], at) == best,
                forall|k: int|
                    0 <= k < index ==> spec_distance(#[trigger] self.temp@[k], at) > best,
            decreases 8 - i,
        {
            let diff: i64 = at as i64 - self.temp[i] as i64;
            let distance: i64 = if diff >= 0 {
                diff
            } else {
                -diff
            };
            assert(distance == spec_distance(self.temp@[i as int], at));
            if distance < best {
                best = distance;
                index = i;
            }
            i += 1;
        }
        index
    }

    /// The fan power of a point in percent, rounded down; nothing where the
    /// curve has no such point.
    pub fn pwm_percent(&self, index: usize) -> (percent: Option<u32>)
        ensures
            percent is Some <==> index < 8,
            percent matches Some(p) ==> p == self.pwm@[index as int] as int * 100 / 255 && p
                <= 100,
    {
        if index < CURVE_POINTS {
            Some((self.pwm[index] as u32) * 100 / 255)
        } else {
            None
        }
    }

    /// Moves a point to a temperature and a fan power. Says whether the
    /// curve has such a point; where it has none nothing changes.
    pub fn set_point(&mut self, index: usize, temp: u8, pwm: u8) -> (moved: bool)
        ensures
            moved == (index < 8),
            final(self).fan == old(self).fan,
            final(self).enabled == old(self).enabled,
            moved ==> final(self).temp@ == old(self).temp@.update(index as int, temp),
            moved ==> final(self).pwm@ == old(self).pwm@.update(index as int, pwm),
            !moved ==> final(self).temp@ == old(self).temp@ && final(self).pwm@ == old(self).pwm@,
    {
        if index < CURVE_POINTS {
            self.temp[index] = temp;
            self.pwm[index] = pwm;
            assert(self.temp@ =~= old(self).temp@.update(index as int, temp));
            assert(self.pwm@ =~= old(self).pwm@.update(index as int, pwm));
            true
        } else {
            false
        }
    }
}

/// The value of an attribute is found at the first place where its name
/// stands.
proof fn lemma_lookup_first(attrs: Seq<AttrView>, name: Seq<u8>, at: int)
    requires
        0 <= at < attrs.len(),
        attrs[at].0 == name,
        forall|j: int| 0 <= j < at ==> (#[trigger] attrs[j]).0 != name,
    ensures
        spec_lookup(attrs, name) == Some(attrs[at].1),
    decreases at,
{
    if at > 0 {
        let rest = attrs.skip(1);
        assert(attrs[0].0 != name);
        assert(rest[at - 1] == attrs[at]);
        assert forall|j: int| 0 <= j < at - 1 implies (#[trigger] rest[j]).0 != name by {
            assert(rest[j] == attrs[j + 1]);
        }
        lemma_lookup_first(rest, name, at - 1);
    }
}

/// The name of a point's attribute is as long as its parts together, and
/// holds the point's number in its sixteenth place.
proof fn lemma_point_name_shape(fan: FanCurvePU, index: int, suffix: Seq<u8>)
    requires
        0 <= index < 8,
    ensures
        spec_point_name(fan, index, suffix).len() == 16 + suffix.len(),
        spec_point_name(fan, index, suffix)[15] == 0x31 + index,
{
    let head = crate::fan_attr::spec_pwm().push(fan.spec_digit())
        + crate::fan_attr::spec_auto_point();
    assert(head.len() == 15);
    let numbered = head.push((0x31 + index) as u8);
    assert(numbered.len() == 16);
    assert(numbered[15] == 0x31 + index);
    assert((numbered + suffix)[15] == numbered[15]);
}

/// What was written for a curve is read back as that curve: its fan powers
/// and its temperatures are found again, whatever the curve held before.
pub proof fn lemma_read_back(curve: CurveData, before: Seq<u8>)
    ensures
        spec_read_points(spec_curve_requests(curve), curve.fan, spec_pwm_suffix(), before)
            == curve.pwm@,
        spec_read_points(spec_curve_requests(curve), curve.fan, spec_temp_suffix(), before)
            == curve.temp@,
{
    let attrs = spec_curve_requests(curve);
    let fan = curve.fan;
    assert(spec_pwm_suffix().len() == 4);
    assert(spec_temp_suffix().len() == 5);
    assert(spec_enable_name(fan).len() == 11) by {
        assert(crate::fan_attr::spec_pwm().push(fan.spec_digit()).len() == 4);
        assert(crate::fan_attr::spec_enable_suffix().len() == 7);
    }
    assert forall|j: int| 0 <= j < 17 implies (#[trigger] attrs[j]).0.len() == (if j < 8 {
        20int
    } else if j < 16 {
        21int
    } else {
        11int
    }) && (j < 8 ==> attrs[j].0[15] == 0x31 + j) && (8 <= j < 16 ==> attrs[j].0[15] == 0x31 + j
        - 8) by {
        if j < 8 {
            lemma_point_name_shape(fan, j, spec_pwm_suffix());
        } else if j < 16 {
            lemma_point_name_shape(fan, j - 8, spec_temp_suffix());
        }
    }
    let pwm = spec_read_points(attrs, fan, spec_pwm_suffix(), before);
    let temp = spec_read_points(attrs, fan, spec_temp_suffix(), before);
    assert forall|i: int| 0 <= i < 8 implies pwm[i] == curve.pwm@[i] && temp[i]
        == curve.temp@[i] by {
        let pwm_name = spec_point_name(fan, i, spec_pwm_suffix());
        let temp_name = spec_point_name(fan, i, spec_temp_suffix());
        lemma_point_name_shape(fan, i, spec_pwm_suffix());
        lemma_point_name_shape(fan, i, spec_temp_suffix());
        assert(attrs[i].0 == pwm_name);
        assert(attrs[8 + i].0 == temp_name);
        assert forall|j: int| 0 <= j < i implies (#[trigger] attrs[j]).0 != pwm_name by {
            assert(attrs[j].0[15] != pwm_name[15]);
        }
        assert forall|j: int| 0 <= j < 8 + i implies (#[trigger] attrs[j]).0 != temp_name by {
            if j < 8 {
                assert(attrs[j].0.len() != temp_name.len());
            } else {
                assert(attrs[j].0[15] != temp_name[15]);
            }
        }
        lemma_lookup_first(attrs, pwm_name, i);
        lemma_lookup_first(attrs, temp_name, 8 + i);
        crate::fan_attr::lemma_decimal_round_trip(curve.pwm@[i]);
        crate::fan_attr::lemma_decimal_round_trip(curve.temp@[i]);
    }
    assert(curve.pwm@.len() == 8);
    assert(curve.temp@.len() == 8);
    assert(pwm =~= curve.pwm@);
    assert(temp =~= curve.temp@);
}

} // verus!
