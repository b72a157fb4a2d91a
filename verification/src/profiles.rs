//! The fan curves of every thermal policy.

use vstd::prelude::*;

use crate::error::ProfileError;
use crate::fan_attr::{
    enable_name, spec_enable_name, spec_pwm_suffix, spec_temp_suffix, Attribute, FanCurvePU,
};
use crate::fan_curve_set::{
    lookup, spec_attr_views, spec_curve_requests, spec_default_value, spec_lookup,
    spec_read_points, AttrView, CurveData,
};
use crate::platform::PlatformPolicy;

verus! {

/// Whether a device with these attributes has a curve for `fan`: it has the
/// fan's enable attribute.
pub open spec fn spec_has_fan(attrs: Seq<AttrView>, fan: FanCurvePU) -> bool {
    spec_lookup(attrs, spec_enable_name(fan)) is Some
}

/// The fan alone where the device has a curve for it, and nothing otherwise.
pub open spec fn spec_fan_if_there(attrs: Seq<AttrView>, fan: FanCurvePU) -> Seq<FanCurvePU> {
    if spec_has_fan(attrs, fan) {
        seq![fan]
    } else {
        Seq::empty()
    }
}

/// The fans that a device with these attributes has curves for, each once:
/// first the CPU fan, then the GPU fan, then the middle fan.
pub open spec fn spec_which_fans(attrs: Seq<AttrView>) -> Seq<FanCurvePU> {
    spec_fan_if_there(attrs, FanCurvePU::CPU) + spec_fan_if_there(attrs, FanCurvePU::GPU)
        + spec_fan_if_there(attrs, FanCurvePU::MID)
}

/// A fan is among the fans of a device exactly when the device has the
/// fan's enable attribute, and no fan is among them twice.
pub proof fn lemma_which_fans(attrs: Seq<AttrView>, fan: FanCurvePU)
    ensures
        spec_which_fans(attrs).contains(fan) <==> spec_has_fan(attrs, fan),
        spec_which_fans(attrs).no_duplicates(),
        spec_which_fans(attrs).len() <= 3,
        forall|i: int, j: int|
            0 <= i < j < spec_which_fans(attrs).len() ==> spec_which_fans(attrs)[i].spec_digit()
                < spec_which_fans(attrs)[j].spec_digit(),
{
    let cpu = spec_fan_if_there(attrs, FanCurvePU::CPU);
    let gpu = spec_fan_if_there(attrs, FanCurvePU::GPU);
    let mid = spec_fan_if_there(attrs, FanCurvePU::MID);
    let all = spec_which_fans(attrs);
    assert(all.len() == cpu.len() + gpu.len() + mid.len());
    assert forall|i: int| 0 <= i < all.len() implies spec_has_fan(attrs, #[trigger] all[i]) && (
    all[i] == FanCurvePU::CPU ==> i == 0) && (all[i] == FanCurvePU::GPU ==> i == cpu.len()) && (
    all[i] == FanCurvePU::MID ==> i == cpu.len() + gpu.len()) by {
        if i < cpu.len() {
            assert(all[i] == cpu[i]);
        } else if i < cpu.len() + gpu.len() {
            assert(all[i] == gpu[i - cpu.len()]);
        } else {
            assert(all[i] == mid[i - cpu.len() - gpu.len()]);
        }
    }
    if spec_has_fan(attrs, fan) {
        let at: int = match fan {
            FanCurvePU::CPU => 0,
            FanCurvePU::GPU => cpu.len() as int,
            FanCurvePU::MID => (cpu.len() + gpu.len()) as int,
        };
        assert(0 <= at < all.len());
        if at < cpu.len() {
            assert(all[at] == cpu[at]);
        } else if at < cpu.len() + gpu.len() {
            assert(all[at] == gpu[at - cpu.len()]);
        } else {
            assert(all[at] == mid[at - cpu.len() - gpu.len()]);
        }
        assert(all[at] == fan);
    }
}

fn fan_if_there(attrs: &Vec<Attribute>, fan: FanCurvePU, fans: &mut Vec<FanCurvePU>)
    ensures
        final(fans)@ == old(fans)@ + spec_fan_if_there(spec_attr_views(attrs@), fan),
{
    let name = enable_name(fan);
    if lookup(attrs, name.as_slice()).is_some() {
        fans.push(fan);
        assert(fans@ =~= old(fans)@ + seq![fan]);
    } else {
        assert(fans@ =~= old(fans)@ + Seq::<FanCurvePU>::empty());
    }
}

impl FanCurvePU {
    /// The fans that a device with these attributes has curves for.
    pub fn which_fans(attrs: &Vec<Attribute>) -> (fans: Vec<FanCurvePU>)
        ensures
            fans@ == spec_which_fans(spec_attr_views(attrs@)),
    {
        let mut fans: Vec<FanCurvePU> = Vec::with_capacity(3);
        fan_if_there(attrs, FanCurvePU::CPU, &mut fans);
        fan_if_there(attrs, FanCurvePU::GPU, &mut fans);
        fan_if_there(attrs, FanCurvePU::MID, &mut fans);
        assert(fans@ =~= spec_which_fans(spec_attr_views(attrs@)));
        fans
    }
}

/// The position of the first curve of `fan` in a list, or the length of the
/// list where it holds none.
pub open spec fn spec_position(curves: Seq<CurveData>, fan: FanCurvePU) -> int
    decreases curves.len(),
{
    if curves.len() == 0 {
        0
    } else if curves[0].fan == fan {
        0
    } else {
        1 + spec_position(curves.skip(1), fan)
    }
}

/// The position of the first curve of a fan lies inside the list or just
/// behind it; no curve before it is that fan's, and the curve at it is.
pub proof fn lemma_position(curves: Seq<CurveData>, fan: FanCurvePU)
    ensures
        0 <= spec_position(curves, fan) <= curves.len(),
        forall|j: int| 0 <= j < spec_position(curves, fan) ==> (#[trigger] curves[j]).fan != fan,
        spec_position(curves, fan) < curves.len() ==> curves[spec_position(curves, fan)].fan
            == fan,
    decreases curves.len(),
{
    if curves.len() > 0 && curves[0].fan != fan {
        let rest = curves.skip(1);
        lemma_position(rest, fan);
        assert forall|j: int| 0 <= j < spec_position(curves, fan) implies (#[trigger] curves[j]).fan
            != fan by {
            if j > 0 {
                assert(curves[j] == rest[j - 1]);
            }
        }
        if spec_position(curves, fan) < curves.len() {
            assert(curves[spec_position(curves, fan)] == rest[spec_position(rest, fan)]);
        }
    }
}

/// A position that meets what `lemma_position` says is the position of the
/// fan's first curve.
pub proof fn lemma_position_unique(curves: Seq<CurveData>, fan: FanCurvePU, at: int)
    requires
        0 <= at <= curves.len(),
        forall|j: int| 0 <= j < at ==> (#[trigger] curves[j]).fan != fan,
        at < curves.len() ==> curves[at].fan == fan,
    ensures
        spec_position(curves, fan) == at,
{
    lemma_position(curves, fan);
    let pos = spec_position(curves, fan);
    if pos < at {
        assert(curves[pos].fan != fan);
    } else if at < pos {
        assert(curves[at].fan != fan);
    }
}

/// The list with its first curve of the fan of `curve` replaced by `curve`;
/// the list itself where it holds no curve of that fan.
pub open spec fn spec_saved(curves: Seq<CurveData>, curve: CurveData) -> Seq<CurveData> {
    let at = spec_position(curves, curve.fan);
    if at < curves.len() {
        curves.update(at, curve)
    } else {
        curves
    }
}

/// The list with its first curve of `fan` switched on or off.
pub open spec fn spec_fan_enabled(curves: Seq<CurveData>, fan: FanCurvePU, enabled: bool) -> Seq<
    CurveData,
> {
    let at = spec_position(curves, fan);
    if at < curves.len() {
        curves.update(at, CurveData { enabled, ..curves[at] })
    } else {
        curves
    }
}

/// The list with every curve switched on or off.
pub open spec fn spec_all_enabled(curves: Seq<CurveData>, enabled: bool) -> Seq<CurveData> {
    Seq::new(curves.len(), |i: int| CurveData { enabled, ..curves[i] })
}

/// Whether `curve` is what a first reading of the device gives for `fan`:
/// switched off, with the points that the attributes hold and zeroes where
/// they hold none.
pub open spec fn spec_is_read_curve(curve: CurveData, attrs: Seq<AttrView>, fan: FanCurvePU) -> bool {
    &&& curve.fan == fan
    &&& !curve.enabled
    &&& curve.pwm@ == spec_read_points(attrs, fan, spec_pwm_suffix(), Seq::new(8, |i: int| 0u8))
    &&& curve.temp@ == spec_read_points(attrs, fan, spec_temp_suffix(), Seq::new(8, |i: int| 0u8))
}

/// Whether `curves` is what a first reading of the device gives: one curve
/// for each fan that the device has, in the order of `spec_which_fans`.
pub open spec fn spec_is_read_list(curves: Seq<CurveData>, attrs: Seq<AttrView>) -> bool {
    &&& curves.len() == spec_which_fans(attrs).len()
    &&& forall|i: int|
        0 <= i < curves.len() ==> spec_is_read_curve(
            #[trigger] curves[i],
            attrs,
            spec_which_fans(attrs)[i],
        )
}

/// The writes that hand every fan of the device back to the platform's own
/// curve: the value `3` for each fan's enable attribute.
pub open spec fn spec_default_requests(attrs: Seq<AttrView>) -> Seq<AttrView> {
    Seq::new(
        spec_which_fans(attrs).len(),
        |i: int| (spec_enable_name(spec_which_fans(attrs)[i]), spec_default_value()),
    )
}

/// The writes that put a list of curves on the device, curve by curve.
pub open spec fn spec_list_requests(curves: Seq<CurveData>) -> Seq<AttrView>
    decreases curves.len(),
{
    if curves.len() == 0 {
        Seq::empty()
    } else {
        spec_list_requests(curves.drop_last()) + spec_curve_requests(curves.last())
    }
}

fn position(curves: &Vec<CurveData>, fan: FanCurvePU) -> (at: usize)
    ensures
        at == spec_position(curves@, fan),
        at <= curves@.len(),
        at < curves@.len() ==> curves@[at as int].fan == fan,
{
    let mut i: usize = 0;
    while i < curves.len()
        invariant
            i <= curves@.len(),
            forall|j: int| 0 <= j < i ==> (#[trigger] curves@[j]).fan != fan,
        decreases curves@.len() - i,
    {
        if curves[i].fan == fan {
            proof {
                lemma_position_unique(curves@, fan, i as int);
            }
            return i;
        }
        i += 1;
    }
    proof {
        lemma_position_unique(curves@, fan, i as int);
    }
    i
}

fn set_all_enabled(curves: &mut Vec<CurveData>, enabled: bool)
    ensures
        final(curves)@ == spec_all_enabled(old(curves)@, enabled),
{
    let mut i: usize = 0;
    while i < curves.len()
        invariant
            i <= curves@.len(),
            curves@.len() == old(curves)@.len(),
            forall|k: int|
                0 <= k < i ==> curves@[k] == (CurveData { enabled, ..old(curves)@[k] }),
            forall|k: int| i <= k < curves@.len() ==> curves@[k] == old(curves)@[k],
        decreases curves@.len() - i,
    {
        let mut curve = curves[i];
        curve.enabled = enabled;
        curves[i] = curve;
        i += 1;
    }
    assert(curves@ =~= spec_all_enabled(old(curves)@, enabled));
}

fn set_fan_enabled(curves: &mut Vec<CurveData>, fan: FanCurvePU, enabled: bool)
    ensures
        final(curves)@ == spec_fan_enabled(old(curves)@, fan, enabled),
{
    let at = position(curves, fan);
    if at < curves.len() {
        let mut curve = curves[at];
        curve.enabled = enabled;
        curves[at] = curve;
    }
}

fn save_curve(curves: &mut Vec<CurveData>, curve: CurveData)
    ensures
        final(curves)@ == spec_saved(old(curves)@, curve),
{
    let at = position(curves, curve.fan);
    if at < curves.len() {
        curves[at] = curve;
    }
}

fn find_curve(curves: &Vec<CurveData>, fan: FanCurvePU) -> (found: Option<&CurveData>)
    ensures
        found is Some <==> spec_position(curves@, fan) < curves@.len(),
        found matches Some(curve) ==> *curve == curves@[spec_position(curves@, fan)]
            && curve.fan == fan,
{
    let at = position(curves, fan);
    if at < curves.len() {
        Some(&curves[at])
    } else {
        None
    }
}

fn read_curves(attrs: &Vec<Attribute>) -> (curves: Vec<CurveData>)
    ensures
        spec_is_read_list(curves@, spec_attr_views(attrs@)),
{
    let ghost views = spec_attr_views(attrs@);
    let fans = FanCurvePU::which_fans(attrs);
    let mut curves: Vec<CurveData> = Vec::with_capacity(3);
    let mut i: usize = 0;
    while i < fans.len()
        invariant
            i <= fans@.len(),
            views == spec_attr_views(attrs@),
            fans@ == spec_which_fans(views),
            curves@.len() == i,
            forall|k: int|
                0 <= k < i ==> spec_is_read_curve(#[trigger] curves@[k], views, fans@[k]),
        decreases fans@.len() - i,
    {
        let mut curve = CurveData::new(fans[i]);
        curve.read_from_device(attrs);
        curves.push(curve);
        i += 1;
    }
    curves
}

fn list_requests(curves: &Vec<CurveData>) -> (requests: Vec<Attribute>)
    ensures
        spec_attr_views(requests@) == spec_list_requests(curves@),
{
    let mut requests: Vec<Attribute> = Vec::new();
    let mut i: usize = 0;
    assert(curves@.take(0) =~= Seq::<CurveData>::empty());
    assert(spec_attr_views(requests@) =~= spec_list_requests(curves@.take(0)));
    while i < curves.len()
        invariant
            i <= curves@.len(),
            spec_attr_views(requests@) == spec_list_requests(curves@.take(i as int)),
        decreases curves@.len() - i,
    {
        let mut more = curves[i].write_to_device();
        let ghost before = requests@;
        let ghost added = more@;
        requests.append(&mut more);
        proof {
            assert(curves@.take(i + 1).drop_last() =~= curves@.take(i as int));
            assert(curves@.take(i + 1).last() == curves@[i as int]);
            assert(requests@ =~= before + added);
            assert(spec_attr_views(before + added) =~= spec_attr_views(before) + spec_attr_views(
                added,
            ));
        }
        i += 1;
    }
    assert(curves@.take(i as int) =~= curves@);
    requests
}

/// The fan curves of every thermal policy. Its main purpose is to restore
/// the curves when the system starts.
#[derive(Debug)]
pub struct FanCurveProfiles {
    pub balanced: Vec<CurveData>,
    pub performance: Vec<CurveData>,
    pub quiet: Vec<CurveData>,
}

impl Default for FanCurveProfiles {
    fn default() -> (profiles: Self)
        ensures
            forall|policy: PlatformPolicy| profiles.spec_curves(policy).len() == 0,
    {
        FanCurveProfiles { balanced: Vec::new(), performance: Vec::new(), quiet: Vec::new() }
    }
}

impl FanCurveProfiles {
    /// The curves kept for `policy`.
    pub open spec fn spec_curves(&self, policy: PlatformPolicy) -> Seq<CurveData> {
        match policy {
            PlatformPolicy::Balanced => self.balanced@,
            PlatformPolicy::Performance => self.performance@,
            PlatformPolicy::Quiet => self.quiet@,
        }
    }

    /// Whether nothing differs between `self` and `other` but the curves
    /// of `policy`.
    pub open spec fn spec_same_but(&self, other: &FanCurveProfiles, policy: PlatformPolicy) -> bool {
        forall|p: PlatformPolicy| p != policy ==> self.spec_curves(p) == other.spec_curves(p)
    }

    /// The fans that the fan curve device has curves for. `node` holds the
    /// attributes of that device, or nothing where the platform has none:
    /// then fan curves are not supported.
    pub fn supported_fans(node: Option<&Vec<Attribute>>) -> (res: Result<
        Vec<FanCurvePU>,
        ProfileError,
    >)
        ensures
            match node {
                Some(attrs) => res matches Ok(fans) && fans@ == spec_which_fans(
                    spec_attr_views(attrs@),
                ),
                None => res == Err::<Vec<FanCurvePU>, ProfileError>(ProfileError::NotSupported),
            },
    {
        match node {
            Some(attrs) => Ok(FanCurvePU::which_fans(attrs)),
            None => Err(ProfileError::NotSupported),
        }
    }

    /// Replaces the curves of `profile` by what the device holds: one curve
    /// for each fan it has, each switched off. Without a device nothing
    /// changes and fan curves are not supported.
    pub fn read_from_dev_profile(
        &mut self,
        profile: PlatformPolicy,
        node: Option<&Vec<Attribute>>,
    ) -> (res: Result<(), ProfileError>)
        ensures
            final(self).spec_same_but(old(self), profile),
            match node {
                Some(attrs) => res is Ok && spec_is_read_list(
                    final(self).spec_curves(profile),
                    spec_attr_views(attrs@),
                ),
                None => {
                    &&& res == Err::<(), ProfileError>(ProfileError::NotSupported)
                    &&& final(self).spec_curves(profile) == old(self).spec_curves(profile)
                },
            },
    {
        match node {
            Some(attrs) => {
                let curves = read_curves(attrs);
                match profile {
                    PlatformPolicy::Balanced => self.balanced = curves,
                    PlatformPolicy::Performance => self.performance = curves,
                    PlatformPolicy::Quiet => self.quiet = curves,
                }
                Ok(())
            },
            None => Err(ProfileError::NotSupported),
        }
    }

    /// The writes that reset the device to the platform's own curves: the
    /// value `3` for the enable attribute of each fan that the device has.
    /// Once they are made, `read_from_dev_profile` takes the curves that
    /// the platform chose for the active policy.
    pub fn set_active_curve_to_defaults(node: Option<&Vec<Attribute>>) -> (res: Result<
        Vec<Attribute>,
        ProfileError,
    >)
        ensures
            match node {
                Some(attrs) => res matches Ok(requests) && spec_attr_views(requests@)
                    == spec_default_requests(spec_attr_views(attrs@)),
                None => res == Err::<Vec<Attribute>, ProfileError>(ProfileError::NotSupported),
            },
    {
        match node {
            Some(attrs) => {
                let ghost views = spec_attr_views(attrs@);
                let fans = FanCurvePU::which_fans(attrs);
                let mut requests: Vec<Attribute> = Vec::with_capacity(fans.len());
                let mut i: usize = 0;
                while i < fans.len()
                    invariant
                        i <= fans@.len(),
                        fans@ == spec_which_fans(views),
                        requests@.len() == i,
                        forall|k: int|
                            0 <= k < i ==> (#[trigger] requests@[k]).name@ == spec_enable_name(
                                fans@[k],
                            ) && requests@[k].value@ == spec_default_value(),
                    decreases fans@.len() - i,
                {
                    let name = enable_name(fans[i]);
                    let mut value: Vec<u8> = Vec::new();
                    value.push(0x33);
                    assert(value@ =~= spec_default_value());
                    requests.push(Attribute { name, value });
                    i += 1;
                }
                assert(spec_attr_views(requests@) =~= spec_default_requests(views));
                Ok(requests)
            },
            None => Err(ProfileError::NotSupported),
        }
    }

    /// The writes that put the curves of `profile` on the device, curve by
    /// curve in the order in which they are kept. Every curve is written,
    /// switched on or not; its enable attribute says which it is.
    pub fn write_profile_curve_to_platform(&self, profile: PlatformPolicy) -> (requests: Vec<
        Attribute,
    >)
        ensures
            spec_attr_views(requests@) == spec_list_requests(self.spec_curves(profile)),
    {
        match profile {
            PlatformPolicy::Balanced => list_requests(&self.balanced),
            PlatformPolicy::Performance => list_requests(&self.performance),
            PlatformPolicy::Quiet => list_requests(&self.quiet),
        }
    }

    /// Switches every curve of `profile` on or off.
    pub fn set_profile_curves_enabled(&mut self, profile: PlatformPolicy, enabled: bool)
        ensures
            final(self).spec_same_but(old(self), profile),
            final(self).spec_curves(profile) == spec_all_enabled(
                old(self).spec_curves(profile),
                enabled,
            ),
    {
        match profile {
            PlatformPolicy::Balanced => set_all_enabled(&mut self.balanced, enabled),
            PlatformPolicy::Performance => set_all_enabled(&mut self.performance, enabled),
            PlatformPolicy::Quiet => set_all_enabled(&mut self.quiet, enabled),
        }
    }

    /// Switches the first curve of `fan` under `profile` on or off. Nothing
    /// changes where `profile` has no curve of that fan.
    pub fn set_profile_fan_curve_enabled(
        &mut self,
        profile: PlatformPolicy,
        fan: FanCurvePU,
        enabled: bool,
    )
        ensures
            final(self).spec_same_but(old(self), profile),
            final(self).spec_curves(profile) == spec_fan_enabled(
                old(self).spec_curves(profile),
                fan,
                enabled,
            ),
    {
        match profile {
            PlatformPolicy::Balanced => set_fan_enabled(&mut self.balanced, fan, enabled),
            PlatformPolicy::Performance => set_fan_enabled(&mut self.performance, fan, enabled),
            PlatformPolicy::Quiet => set_fan_enabled(&mut self.quiet, fan, enabled),
        }
    }

    /// The curves kept for `name`.
    pub fn get_fan_curves_for(&self, name: PlatformPolicy) -> (curves: &[CurveData])
        ensures
            curves@ == self.spec_curves(name),
    {
        match name {
            PlatformPolicy::Balanced => self.balanced.as_slice(),
            PlatformPolicy::Performance => self.performance.as_slice(),
            PlatformPolicy::Quiet => self.quiet.as_slice(),
        }
    }

    /// The first curve of `pu` kept for `name`, if there is one.
    pub fn get_fan_curve_for(&self, name: &PlatformPolicy, pu: FanCurvePU) -> (found: Option<
        &CurveData,
    >)
        ensures
            found is Some <==> spec_position(self.spec_curves(*name), pu) < self.spec_curves(
                *name,
            ).len(),
            found matches Some(curve) ==> *curve == self.spec_curves(*name)[spec_position(
                self.spec_curves(*name),
                pu,
            )] && curve.fan == pu,
    {
        match name {
            PlatformPolicy::Balanced => find_curve(&self.balanced, pu),
            PlatformPolicy::Performance => find_curve(&self.performance, pu),
            PlatformPolicy::Quiet => find_curve(&self.quiet, pu),
        }
    }

    /// Puts `curve` in the place of the first curve of its fan under
    /// `profile`. Where `profile` has no curve of that fan nothing changes.
    /// Either way the result is `Ok`.
    pub fn save_fan_curve(&mut self, curve: CurveData, profile: PlatformPolicy) -> (res: Result<
        (),
        ProfileError,
    >)
        ensures
            res is Ok,
            final(self).spec_same_but(old(self), profile),
            final(self).spec_curves(profile) == spec_saved(old(self).spec_curves(profile), curve),
    {
        match profile {
            PlatformPolicy::Balanced => save_curve(&mut self.balanced, curve),
            PlatformPolicy::Performance => save_curve(&mut self.performance, curve),
            PlatformPolicy::Quiet => save_curve(&mut self.quiet, curve),
        }
        Ok(())
    }
}

/// Saving a curve of a fan that the list has no curve of changes nothing;
/// saving never changes the length of the list, and where the list has a
/// curve of that fan, the saved curve is then the first of its fan.
pub proof fn lemma_saved(curves: Seq<CurveData>, curve: CurveData)
    ensures
        spec_saved(curves, curve).len() == curves.len(),
        (forall|i: int| 0 <= i < curves.len() ==> (#[trigger] curves[i]).fan != curve.fan)
            ==> spec_saved(curves, curve) == curves,
        spec_position(spec_saved(curves, curve), curve.fan) == spec_position(curves, curve.fan),
        spec_position(curves, curve.fan) < curves.len() ==> spec_saved(
            curves,
            curve,
        )[spec_position(curves, curve.fan)] == curve,
{
    lemma_position(curves, curve.fan);
    let at = spec_position(curves, curve.fan);
    let saved = spec_saved(curves, curve);
    if at < curves.len() {
        assert forall|j: int| 0 <= j < at implies (#[trigger] saved[j]).fan != curve.fan by {
            assert(saved[j] == curves[j]);
        }
        lemma_position_unique(saved, curve.fan, at);
    }
}

/// What a reading of the device leaves for a policy has every curve
/// switched off, whatever was kept before, and at most one curve for each
/// fan.
pub proof fn lemma_read_list_disabled(curves: Seq<CurveData>, attrs: Seq<AttrView>)
    requires
        spec_is_read_list(curves, attrs),
    ensures
        forall|i: int| 0 <= i < curves.len() ==> !(#[trigger] curves[i]).enabled,
        curves.len() <= 3,
        forall|i: int, j: int|
            0 <= i < j < curves.len() ==> (#[trigger] curves[i]).fan != (#[trigger] curves[j]).fan,
{
    lemma_which_fans(attrs, FanCurvePU::CPU);
    let fans = spec_which_fans(attrs);
    assert forall|i: int, j: int| 0 <= i < j < curves.len() implies (#[trigger] curves[i]).fan != (
    #[trigger] curves[j]).fan by {
        assert(curves[i].fan == fans[i]);
        assert(curves[j].fan == fans[j]);
    }
}

} // verus!
