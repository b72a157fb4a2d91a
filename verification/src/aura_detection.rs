//! What is known of the lighting of each supported device, and how the
//! entry for a device at hand is found.

use vstd::prelude::*;
use vstd::utf8::encode_utf8;

use crate::aura::{AuraModeNum, AuraZone};
use crate::fan_attr::{contains, spec_contains};
use crate::text::str_eq;
use vstd::string::StrSliceExecFns;

verus! {

/// The zones whose lighting can be switched by power state.
#[derive(Debug, Clone, Copy, PartialEq, Eq, Structural)]
pub enum PowerZones {
    /// The logo on some laptop lids
    Logo,
    /// The full keyboard (not zones)
    Keyboard,
    /// The lightbar, typically on the front of the laptop
    Lightbar,
    /// The leds that may be placed around the edge of the laptop lid
    Lid,
    /// The led strip on the rear of some laptops
    RearGlow,
    /// Keyboard and lightbar as one, on older devices
    KeyboardAndLightbar,
}

/// The lights that a zoned device can address one by one.
#[derive(Debug, Clone, Copy, PartialEq, Eq, Structural)]
pub enum LedCode {
    SingleZone,
    ZonedKbLeft,
    ZonedKbLeftMid,
    ZonedKbRightMid,
    ZonedKbRight,
    LightbarRight,
    LightbarRightCorner,
    LightbarRightBottom,
    LightbarLeftBottom,
    LightbarLeftCorner,
    LightbarLeft,
    LidLogo,
    LidLeft,
    LidRight,
}

/// How far a device can be lit beyond the built-in modes.
#[derive(Debug, PartialEq, Eq)]
pub enum AdvancedAuraType {
    /// Nothing beyond the built-in modes.
    Basic,
    /// Zone by zone.
    Zoned(Vec<LedCode>),
    /// Key by key.
    PerKey,
}

/// An `AdvancedAuraType` as contracts see it.
pub enum AdvancedView {
    Basic,
    Zoned(Seq<LedCode>),
    PerKey,
}

impl View for AdvancedAuraType {
    type V = AdvancedView;

    open spec fn view(&self) -> AdvancedView {
        match *self {
            AdvancedAuraType::Basic => AdvancedView::Basic,
            AdvancedAuraType::Zoned(leds) => AdvancedView::Zoned(leds@),
            AdvancedAuraType::PerKey => AdvancedView::PerKey,
        }
    }
}

impl Default for AdvancedAuraType {
    fn default() -> (kind: Self)
        ensures
            kind@ == AdvancedView::Basic,
    {
        AdvancedAuraType::Basic
    }
}

fn copy_of<T: Copy>(list: &Vec<T>) -> (copy: Vec<T>)
    ensures
        copy@ == list@,
{
    let mut copy: Vec<T> = Vec::with_capacity(list.len());
    let mut i: usize = 0;
    while i < list.len()
        invariant
            i <= list@.len(),
            copy@ == list@.take(i as int),
        decreases list@.len() - i,
    {
        copy.push(list[i]);
        i += 1;
        assert(copy@ =~= list@.take(i as int));
    }
    assert(list@.take(i as int) =~= list@);
    copy
}

impl Clone for AdvancedAuraType {
    fn clone(&self) -> (copy: Self)
        ensures
            copy@ == self@,
    {
        match self {
            AdvancedAuraType::Basic => AdvancedAuraType::Basic,
            AdvancedAuraType::Zoned(leds) => AdvancedAuraType::Zoned(copy_of(leds)),
            AdvancedAuraType::PerKey => AdvancedAuraType::PerKey,
        }
    }
}

/// What is known of the lighting of one device.
#[derive(Debug, PartialEq, Eq)]
pub struct LedSupportData {
    /// The board name of a laptop, or a part of it, or a part of the name
    /// of a USB device.
    pub device_name: String,
    /// The USB product ID; empty where any will do.
    pub product_id: String,
    /// The name of the layout of the device's lights; may be empty.
    pub layout_name: String,
    /// If empty will default to `Static` mode
    pub basic_modes: Vec<AuraModeNum>,
    /// The zones of the keyboard, logo and lightbar; ignored if empty.
    pub basic_zones: Vec<AuraZone>,
    /// `Zoned` or `PerKey`.
    pub advanced_type: AdvancedAuraType,
    /// If empty will default to `Keyboard` power zone
    pub power_zones: Vec<PowerZones>,
}

/// A `LedSupportData` as contracts see it.
pub struct LedSupportView {
    pub device_name: Seq<char>,
    pub product_id: Seq<char>,
    pub layout_name: Seq<char>,
    pub basic_modes: Seq<AuraModeNum>,
    pub basic_zones: Seq<AuraZone>,
    pub advanced_type: AdvancedView,
    pub power_zones: Seq<PowerZones>,
}

impl View for LedSupportData {
    type V = LedSupportView;

    open spec fn view(&self) -> LedSupportView {
        LedSupportView {
            device_name: self.device_name@,
            product_id: self.product_id@,
            layout_name: self.layout_name@,
            basic_modes: self.basic_modes@,
            basic_zones: self.basic_zones@,
            advanced_type: self.advanced_type@,
            power_zones: self.power_zones@,
        }
    }
}

/// The entry for a device of which nothing is known.
pub open spec fn spec_generic_support() -> LedSupportView {
    LedSupportView {
        device_name: Seq::empty(),
        product_id: Seq::empty(),
        layout_name: Seq::empty(),
        basic_modes: Seq::empty(),
        basic_zones: Seq::empty(),
        advanced_type: AdvancedView::Basic,
        power_zones: Seq::empty(),
    }
}

impl Default for LedSupportData {
    fn default() -> (data: Self)
        ensures
            data@ == spec_generic_support(),
    {
        LedSupportData {
            device_name: String::new(),
            product_id: String::new(),
            layout_name: String::new(),
            basic_modes: Vec::new(),
            basic_zones: Vec::new(),
            advanced_type: AdvancedAuraType::Basic,
            power_zones: Vec::new(),
        }
    }
}

impl Clone for LedSupportData {
    fn clone(&self) -> (copy: Self)
        ensures
            copy@ == self@,
    {
        LedSupportData {
            device_name: self.device_name.clone(),
            product_id: self.product_id.clone(),
            layout_name: self.layout_name.clone(),
            basic_modes: copy_of(&self.basic_modes),
            basic_zones: copy_of(&self.basic_zones),
            advanced_type: self.advanced_type.clone(),
            power_zones: copy_of(&self.power_zones),
        }
    }
}

/// Whether an entry fits a device: the entry's name occurs in the device's
/// name, and the entry asks for no product ID or for the device's.
pub open spec fn spec_fits(
    entry: LedSupportView,
    device_name: Seq<char>,
    product_id: Seq<char>,
) -> bool {
    spec_contains(encode_utf8(device_name), encode_utf8(entry.device_name)) && (
    entry.product_id.len() == 0 || entry.product_id == product_id)
}

/// The position of the last entry of `entries` that fits the device, or -1
/// where none fits.
pub open spec fn spec_match_position(
    entries: Seq<LedSupportData>,
    device_name: Seq<char>,
    product_id: Seq<char>,
) -> int
    decreases entries.len(),
{
    if entries.len() == 0 {
        -1
    } else if spec_fits(entries.last()@, device_name, product_id) {
        entries.len() - 1
    } else {
        spec_match_position(entries.drop_last(), device_name, product_id)
    }
}

/// The list of all entries, kept in the order of the device names, so that
/// a longer name comes after the names that begin it.
#[derive(Debug, PartialEq, Eq)]
pub struct LedSupportFile(pub Vec<LedSupportData>);

impl Default for LedSupportFile {
    fn default() -> (file: Self)
        ensures
            file.0@.len() == 0,
    {
        LedSupportFile(Vec::new())
    }
}

impl LedSupportFile {
    pub fn get(&self) -> (entries: &[LedSupportData])
        ensures
            entries@ == self.0@,
    {
        self.0.as_slice()
    }

    /// Finds the entry for a device. The list is gone through from its end,
    /// so that a whole name is met before the names that begin it.
    pub fn match_device(&self, device_name: &str, product_id: &str) -> (found: Option<
        LedSupportData,
    >)
        ensures
            match found {
                Some(data) => {
                    let at = spec_match_position(self.0@, device_name@, product_id@);
                    0 <= at < self.0@.len() && data@ == self.0@[at]@
                },
                None => spec_match_position(self.0@, device_name@, product_id@) == -1,
            },
    {
        let mut i: usize = self.0.len();
        assert(self.0@.take(i as int) =~= self.0@);
        while i > 0
            invariant
                i <= self.0@.len(),
                spec_match_position(self.0@, device_name@, product_id@) == spec_match_position(
                    self.0@.take(i as int),
                    device_name@,
                    product_id@,
                ),
            decreases i,
        {
            let ghost upto = self.0@.take(i as int);
            i -= 1;
            let config = &self.0[i];
            assert(upto.last() == *config);
            assert(upto.drop_last() =~= self.0@.take(i as int));
            if contains(device_name.as_bytes(), config.device_name.as_str().as_bytes()) {
                if config.product_id.as_str().unicode_len() == 0 || str_eq(
                    config.product_id.as_str(),
                    product_id,
                ) {
                    return Some(config.clone());
                }
            }
        }
        None
    }
}

impl LedSupportData {
    /// The entry for a device: what `file` holds for it, or the entry of a
    /// device of which nothing is known, where there is no list or the list
    /// has no entry that fits.
    pub fn get_data(file: Option<&LedSupportFile>, board_name: &str, product_id: &str) -> (data:
        Self)
        ensures
            match file {
                Some(f) => {
                    let at = spec_match_position(f.0@, board_name@, product_id@);
                    if at == -1 {
                        data@ == spec_generic_support()
                    } else {
                        0 <= at < f.0@.len() && data@ == f.0@[at]@
                    }
                },
                None => data@ == spec_generic_support(),
            },
    {
        if let Some(f) = file {
            if let Some(data) = f.match_device(board_name, product_id) {
                return data;
            }
        }
        LedSupportData::default()
    }
}

/// Whether `a` comes before `b`, or is `b`, in the order of texts: byte by
/// byte, the shorter first where one begins the other.
pub open spec fn spec_bytes_le(a: Seq<u8>, b: Seq<u8>) -> bool
    decreases a.len(),
{
    if a.len() == 0 {
        true
    } else if b.len() == 0 {
        false
    } else if a[0] != b[0] {
        a[0] < b[0]
    } else {
        spec_bytes_le(a.skip(1), b.skip(1))
    }
}

/// Whether the entries stand in the order of their device names.
pub open spec fn spec_sorted_by_name(entries: Seq<LedSupportData>) -> bool {
    forall|i: int, j: int|
        0 <= i < j < entries.len() ==> spec_bytes_le(
            encode_utf8(#[trigger] entries[i].device_name@),
            encode_utf8(#[trigger] entries[j].device_name@),
        )
}

/// The entries that are called `name`, in the order in which they stand.
pub open spec fn spec_named(entries: Seq<LedSupportData>, name: Seq<char>) -> Seq<LedSupportData> {
    entries.filter(|entry: LedSupportData| entry.device_name@ == name)
}

/// Whether `sorted` holds the entries of `entries` in the order of their
/// device names, those with one name in the order that they had.
pub open spec fn spec_is_sorted_form(sorted: Seq<LedSupportData>, entries: Seq<LedSupportData>) -> bool {
    &&& sorted.to_multiset() == entries.to_multiset()
    &&& spec_sorted_by_name(sorted)
    &&& forall|name: Seq<char>| #[trigger] spec_named(sorted, name) == spec_named(entries, name)
}

/// Calls `slice::sort_by` with the order of the device names, which is the
/// order of `String`: byte by byte. The contract claims that the same
/// entries are there afterwards, that they stand in that order, and that
/// entries with one name keep the order that they had: the sort is stable.
#[verifier::external_body]
fn sort_by_device_name(entries: &mut Vec<LedSupportData>)
    ensures
        spec_is_sorted_form(final(entries)@, old(entries)@),
{
    entries.sort_by(|a, b| a.device_name.cmp(&b.device_name));
}

/// The entries of the two sources one after the other: those that the user
/// wrote, if any, and then those that come with the system.
pub open spec fn spec_joined(
    user: Option<LedSupportFile>,
    system: LedSupportFile,
) -> Seq<LedSupportData> {
    match user {
        Some(u) => u.0@ + system.0@,
        None => system.0@,
    }
}

impl LedSupportFile {
    /// Puts together the list from its two sources: the entries that the
    /// user wrote, if any, and the entries that come with the system. There
    /// is a list only where the system's entries are there. The list is in
    /// the order of the device names; among entries with one name the
    /// user's come first, and each source keeps its own order.
    pub fn from_sources(user: Option<LedSupportFile>, system: Option<LedSupportFile>) -> (file:
        Option<LedSupportFile>)
        ensures
            file is Some <==> system is Some,
            file matches Some(f) ==> spec_is_sorted_form(f.0@, spec_joined(user, system.unwrap())),
    {
        let mut entries: Vec<LedSupportData> = Vec::new();
        if let Some(u) = user {
            let mut list = u.0;
            entries.append(&mut list);
        }
        match system {
            Some(s) => {
                let mut list = s.0;
                let ghost before = entries@;
                entries.append(&mut list);
                assert(entries@ =~= before + s.0@);
                assert(before =~= (match user {
                    Some(u) => u.0@,
                    None => Seq::<LedSupportData>::empty(),
                }));
                assert(Seq::<LedSupportData>::empty() + s.0@ =~= s.0@);
                assert(entries@ == spec_joined(user, s));
                sort_by_device_name(&mut entries);
                Some(LedSupportFile(entries))
            },
            None => None,
        }
    }
}

} // verus!
