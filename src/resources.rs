//! The read-only registry of templates, regions of interest and fingerprint
//! lookup tables that recognition works from.

use vstd::prelude::*;
use std::collections::HashMap;
use crate::frame::GrayImage;

verus! {

broadcast use vstd::std_specs::hash::group_hash_axioms;

/// What a fingerprint that has no entry reads as.
pub open spec fn resolve_value(table: Map<u64, i32>, fp: u64) -> i32 {
    if table.contains_key(fp) {
        table[fp]
    } else {
        0
    }
}

/// A mapping from fingerprint to the integer the fingerprinted glyph shows.
pub struct LookupTable {
    entries: HashMap<u64, i32>,
}

impl View for LookupTable {
    type V = Map<u64, i32>;

    closed spec fn view(&self) -> Map<u64, i32> {
        self.entries@
    }
}

impl LookupTable {
    pub fn new() -> (r: LookupTable)
        ensures
            r@ == Map::<u64, i32>::empty(),
    {
        LookupTable { entries: HashMap::new() }
    }

    pub fn insert(&mut self, fp: u64, value: i32)
        ensures
            final(self)@ == old(self)@.insert(fp, value),
    {
        self.entries.insert(fp, value);
    }

    pub fn get(&self, fp: u64) -> (r: Option<i32>)
        ensures
            r == (if self@.contains_key(fp) {
                Some(self@[fp])
            } else {
                None
            }),
    {
        match self.entries.get(&fp) {
            Some(v) => Some(*v),
            None => None,
        }
    }

    /// The value recorded for `fp`, or 0 where none is.
    pub fn resolve(&self, fp: u64) -> (r: i32)
        ensures
            r == resolve_value(self@, fp),
    {
        match self.get(fp) {
            Some(v) => v,
            None => 0,
        }
    }
}

/// A rectangle placed relative to an anchor's top-left corner.
#[derive(Clone, Copy, Debug, PartialEq, Eq, Structural)]
pub struct RegionOfInterest {
    pub dx: i32,
    pub dy: i32,
    pub width: u32,
    pub height: u32,
}

/// The two glyph regions of a two-part reading: the high part (thousands,
/// hours) and the low part (hundreds, minutes).
#[derive(Clone, Copy, Debug, PartialEq, Eq, Structural)]
pub struct ReadoutLayout {
    pub high: RegionOfInterest,
    pub low: RegionOfInterest,
}

/// A vital statistic shown as thousands and hundreds.
#[derive(Clone, Copy, Debug, PartialEq, Eq, Structural)]
pub enum VitalKind {
    Hp,
    Mana,
    Capacity,
    Speed,
}

/// A timer shown as hours and minutes.
#[derive(Clone, Copy, Debug, PartialEq, Eq, Structural)]
pub enum TimerKind {
    Food,
    Stamina,
}

/// A group of abilities that share a cooldown indicator.
#[derive(Clone, Copy, Debug, PartialEq, Eq, Structural)]
pub enum CooldownGroup {
    Attack,
    Healing,
    Support,
}

/// Where a group's indicator lies inside the cooldown strip, and the
/// fingerprints it has while the group is cooling down.
pub struct GroupIndicator {
    pub x: u32,
    pub y: u32,
    pub width: u32,
    pub height: u32,
    pub active_fingerprints: Vec<u64>,
}

/// Geometry of the cooldown strip relative to its left arrow, and of the
/// probe inside a named ability's icon.
#[derive(Clone, Copy, Debug, PartialEq, Eq, Structural)]
pub struct StripLayout {
    pub dy: i32,
    pub height: u32,
    pub probe_row: u32,
    pub active_value: u8,
}

/// A named reference image.
pub struct NamedTemplate {
    pub name: String,
    pub image: GrayImage,
}

/// Everything recognition reads: built once, then only read.
pub struct RecognitionResources {
    pub arrow_left: GrayImage,
    pub arrow_right: GrayImage,
    pub skills_icon: GrayImage,
    pub cooldown_templates: Vec<NamedTemplate>,
    pub attack: GroupIndicator,
    pub healing: GroupIndicator,
    pub support: GroupIndicator,
    pub digit_table: LookupTable,
    pub time_table: LookupTable,
    pub hp: ReadoutLayout,
    pub mana: ReadoutLayout,
    pub capacity: ReadoutLayout,
    pub speed: ReadoutLayout,
    pub food: ReadoutLayout,
    pub stamina: ReadoutLayout,
    pub strip: StripLayout,
    /// Confidence, in thousandths, with which anchors and icons are searched.
    pub anchor_confidence: u32,
}

/// The first template named `name` at or after index `i`.
pub open spec fn template_position(ts: Seq<NamedTemplate>, name: Seq<char>, i: int) -> Option<int>
    decreases ts.len() - i,
{
    if i < 0 || i >= ts.len() {
        None
    } else if ts[i].name@ == name {
        Some(i)
    } else {
        template_position(ts, name, i + 1)
    }
}

pub proof fn lemma_template_position_in_range(ts: Seq<NamedTemplate>, name: Seq<char>, i: int)
    requires
        template_position(ts, name, i) is Some,
    ensures
        0 <= i <= template_position(ts, name, i)->Some_0 < ts.len(),
        ts[template_position(ts, name, i)->Some_0].name@ == name,
    decreases ts.len() - i,
{
    if ts[i].name@ != name {
        lemma_template_position_in_range(ts, name, i + 1);
    }
}

impl RecognitionResources {
    pub open spec fn wf(&self) -> bool {
        &&& self.arrow_left.wf()
        &&& self.arrow_right.wf()
        &&& self.skills_icon.wf()
        &&& forall|i: int|
            0 <= i < self.cooldown_templates@.len() ==> (#[trigger] self.cooldown_templates@[i]).image.wf()
    }

    pub open spec fn vital_layout_spec(&self, kind: VitalKind) -> ReadoutLayout {
        match kind {
            VitalKind::Hp => self.hp,
            VitalKind::Mana => self.mana,
            VitalKind::Capacity => self.capacity,
            VitalKind::Speed => self.speed,
        }
    }

    pub open spec fn timer_layout_spec(&self, kind: TimerKind) -> ReadoutLayout {
        match kind {
            TimerKind::Food => self.food,
            TimerKind::Stamina => self.stamina,
        }
    }

    pub open spec fn group_spec(&self, group: CooldownGroup) -> GroupIndicator {
        match group {
            CooldownGroup::Attack => self.attack,
            CooldownGroup::Healing => self.healing,
            CooldownGroup::Support => self.support,
        }
    }

    pub fn vital_layout(&self, kind: VitalKind) -> (r: ReadoutLayout)
        ensures
            r == self.vital_layout_spec(kind),
    {
        match kind {
            VitalKind::Hp => self.hp,
            VitalKind::Mana => self.mana,
            VitalKind::Capacity => self.capacity,
            VitalKind::Speed => self.speed,
        }
    }

    pub fn timer_layout(&self, kind: TimerKind) -> (r: ReadoutLayout)
        ensures
            r == self.timer_layout_spec(kind),
    {
        match kind {
            TimerKind::Food => self.food,
            TimerKind::Stamina => self.stamina,
        }
    }

    pub fn group(&self, group: CooldownGroup) -> (r: &GroupIndicator)
        ensures
            *r == self.group_spec(group),
    {
        match group {
            CooldownGroup::Attack => &self.attack,
            CooldownGroup::Healing => &self.healing,
            CooldownGroup::Support => &self.support,
        }
    }

    /// Resources laid out as the standard interface draws them: the glyph
    /// regions of `ReadoutLayout::standard_vital` and `standard_timer`, the
    /// strip of `StripLayout::standard`, and anchors searched at 0.8.
    pub fn with_standard_layout(
        arrow_left: GrayImage,
        arrow_right: GrayImage,
        skills_icon: GrayImage,
        cooldown_templates: Vec<NamedTemplate>,
        attack: GroupIndicator,
        healing: GroupIndicator,
        support: GroupIndicator,
        digit_table: LookupTable,
        time_table: LookupTable,
    ) -> (r: RecognitionResources)
        ensures
            r.arrow_left == arrow_left,
            r.arrow_right == arrow_right,
            r.skills_icon == skills_icon,
            r.cooldown_templates == cooldown_templates,
            r.attack == attack,
            r.healing == healing,
            r.support == support,
            r.digit_table == digit_table,
            r.time_table == time_table,
            forall|k: VitalKind| r.vital_layout_spec(k) == #[trigger] standard_vital_spec(k),
            forall|k: TimerKind| r.timer_layout_spec(k) == #[trigger] standard_timer_spec(k),
            r.strip == (StripLayout { dy: 37, height: 22, probe_row: 20, active_value: 255 }),
            r.anchor_confidence == 800,
    {
        RecognitionResources {
            arrow_left,
            arrow_right,
            skills_icon,
            cooldown_templates,
            attack,
            healing,
            support,
            digit_table,
            time_table,
            hp: ReadoutLayout::standard_vital(VitalKind::Hp),
            mana: ReadoutLayout::standard_vital(VitalKind::Mana),
            capacity: ReadoutLayout::standard_vital(VitalKind::Capacity),
            speed: ReadoutLayout::standard_vital(VitalKind::Speed),
            food: ReadoutLayout::standard_timer(TimerKind::Food),
            stamina: ReadoutLayout::standard_timer(TimerKind::Stamina),
            strip: StripLayout::standard(),
            anchor_confidence: 800,
        }
    }

    /// The first cooldown template named `name`.
    pub fn template_named(&self, name: &String) -> (r: Option<&GrayImage>)
        ensures
            match template_position(self.cooldown_templates@, name@, 0) {
                Some(i) => r == Some(&self.cooldown_templates@[i].image),
                None => r is None,
            },
    {
        let len = self.cooldown_templates.len();
        let mut i: usize = 0;
        while i < len
            invariant
                len == self.cooldown_templates@.len(),
                i <= len,
                template_position(self.cooldown_templates@, name@, 0) == template_position(
                    self.cooldown_templates@,
                    name@,
                    i as int,
                ),
            decreases len - i,
        {
            let t = &self.cooldown_templates[i];
            if t.name == *name {
                return Some(&t.image);
            }
            i = i + 1;
        }
        None
    }
}

/// Whether `fp` is one of `fps`.
pub fn contains_fingerprint(fps: &Vec<u64>, fp: u64) -> (r: bool)
    ensures
        r == fps@.contains(fp),
{
    let mut i: usize = 0;
    while i < fps.len()
        invariant
            i <= fps@.len(),
            forall|k: int| 0 <= k < i ==> fps@[k] != fp,
        decreases fps@.len() - i,
    {
        if fps[i] == fp {
            return true;
        }
        i = i + 1;
    }
    false
}

/// Thousands at 100 and hundreds at 128 columns right of the skills icon,
/// 22 by 8 each, in the statistic's row.
pub open spec fn standard_vital_spec(kind: VitalKind) -> ReadoutLayout {
    let dy: i32 = match kind {
        VitalKind::Hp => 90,
        VitalKind::Mana => 104,
        VitalKind::Capacity => 132,
        VitalKind::Speed => 146,
    };
    ReadoutLayout {
        high: RegionOfInterest { dx: 100, dy, width: 22, height: 8 },
        low: RegionOfInterest { dx: 128, dy, width: 22, height: 8 },
    }
}

/// Hours at 116 and minutes at 136 columns right of the skills icon, 14 by
/// 8 each, in the timer's row.
pub open spec fn standard_timer_spec(kind: TimerKind) -> ReadoutLayout {
    let dy: i32 = match kind {
        TimerKind::Food => 160,
        TimerKind::Stamina => 174,
    };
    ReadoutLayout {
        high: RegionOfInterest { dx: 116, dy, width: 14, height: 8 },
        low: RegionOfInterest { dx: 136, dy, width: 14, height: 8 },
    }
}

impl ReadoutLayout {
    /// The vital-statistic glyph regions, relative to the skills icon.
    pub fn standard_vital(kind: VitalKind) -> (r: ReadoutLayout)
        ensures
            r == standard_vital_spec(kind),
    {
        let dy: i32 = match kind {
            VitalKind::Hp => 90,
            VitalKind::Mana => 104,
            VitalKind::Capacity => 132,
            VitalKind::Speed => 146,
        };
        ReadoutLayout {
            high: RegionOfInterest { dx: 100, dy, width: 22, height: 8 },
            low: RegionOfInterest { dx: 128, dy, width: 22, height: 8 },
        }
    }

    /// The timer glyph regions, relative to the skills icon.
    pub fn standard_timer(kind: TimerKind) -> (r: ReadoutLayout)
        ensures
            r == standard_timer_spec(kind),
    {
        let dy: i32 = match kind {
            TimerKind::Food => 160,
            TimerKind::Stamina => 174,
        };
        ReadoutLayout {
            high: RegionOfInterest { dx: 116, dy, width: 14, height: 8 },
            low: RegionOfInterest { dx: 136, dy, width: 14, height: 8 },
        }
    }
}

impl StripLayout {
    /// The strip starts 37 rows below the left arrow and is 22 rows tall; a
    /// cooling-down icon shows full white in row 20 of the strip.
    pub fn standard() -> (r: StripLayout)
        ensures
            r == (StripLayout { dy: 37, height: 22, probe_row: 20, active_value: 255 }),
    {
        StripLayout { dy: 37, height: 22, probe_row: 20, active_value: 255 }
    }
}

} // verus!
