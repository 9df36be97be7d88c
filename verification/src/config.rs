//! The settings file as the window reads and writes it.

use crate::knob::POLL_PRESETS;
use vstd::prelude::*;
use vstd::relations::*;
use vstd::seq_lib::*;

verus! {

/// Which mode the engine begins in.
#[derive(Debug, Clone, Copy, PartialEq, Eq, Structural)]
pub enum StartupMode {
    Bios,
    Smart,
}

/// Which ports reach the embedded controller.
#[derive(Debug, Clone, Copy, PartialEq, Eq, Structural)]
pub enum EcLayout {
    Standard,
    Compat,
}

/// One step of a fan curve: from `temp` degrees Celsius on, the fan runs at
/// `level`, with the room it keeps before slowing down and speeding up.
#[derive(Debug, Clone, Copy, PartialEq, Eq, Structural)]
pub struct CurvePoint {
    pub temp: i8,
    pub level: u8,
    pub hyst_up: i8,
    pub hyst_down: i8,
}

/// A named curve.
#[derive(Debug, Clone, PartialEq, Eq)]
pub struct Profile {
    pub name: String,
    pub points: Vec<CurvePoint>,
}

/// The settings the window shows, changes and writes back.
#[derive(Debug, Clone, PartialEq, Eq)]
pub struct Config {
    pub poll_secs: u32,
    pub watchdog_secs: u32,
    pub standby_poll_secs: u32,
    pub manual_escape_c: i8,
    pub fahrenheit: bool,
    pub startup_mode: StartupMode,
    pub log_enabled: bool,
    pub log_max_mb: u64,
    pub show_window_on_start: bool,
    pub single_fan: bool,
    /// `None` until the first start has probed for it.
    pub ec_layout: Option<EcLayout>,
    pub ignored_sensors: Vec<usize>,
    pub profiles: Vec<Profile>,
    pub active_profile: String,
}

/// The ranges that reading the settings file enforces.
#[derive(Debug, Clone, Copy, PartialEq, Eq)]
pub struct Limits {
    pub poll_secs_min: u32,
    pub poll_secs_max: u32,
    pub standby_poll_secs_min: u32,
    pub standby_poll_secs_max: u32,
    pub manual_escape_min: i8,
    pub manual_escape_max: i8,
}

/// A profile as a mathematical value.
pub struct ProfileView {
    pub name: Seq<char>,
    pub points: Seq<CurvePoint>,
}

/// The settings as a mathematical value.
pub struct ConfigView {
    pub poll_secs: u32,
    pub watchdog_secs: u32,
    pub standby_poll_secs: u32,
    pub manual_escape_c: i8,
    pub fahrenheit: bool,
    pub startup_mode: StartupMode,
    pub log_enabled: bool,
    pub log_max_mb: u64,
    pub show_window_on_start: bool,
    pub single_fan: bool,
    pub ec_layout: Option<EcLayout>,
    pub ignored_sensors: Seq<usize>,
    pub profiles: Seq<ProfileView>,
    pub active_profile: Seq<char>,
}

impl View for Profile {
    type V = ProfileView;

    open spec fn view(&self) -> ProfileView {
        ProfileView { name: self.name@, points: self.points@ }
    }
}

impl View for Config {
    type V = ConfigView;

    open spec fn view(&self) -> ConfigView {
        ConfigView {
            poll_secs: self.poll_secs,
            watchdog_secs: self.watchdog_secs,
            standby_poll_secs: self.standby_poll_secs,
            manual_escape_c: self.manual_escape_c,
            fahrenheit: self.fahrenheit,
            startup_mode: self.startup_mode,
            log_enabled: self.log_enabled,
            log_max_mb: self.log_max_mb,
            show_window_on_start: self.show_window_on_start,
            single_fan: self.single_fan,
            ec_layout: self.ec_layout,
            ignored_sensors: self.ignored_sensors@,
            profiles: profile_views(self.profiles@),
            active_profile: self.active_profile@,
        }
    }
}

/// A list of profiles as mathematical values.
pub open spec fn profile_views(profiles: Seq<Profile>) -> Seq<ProfileView> {
    Seq::new(profiles.len(), |i: int| profiles[i]@)
}

impl Limits {
    /// Every range holds something, and the one of the poll interval holds every
    /// preset that its row offers.
    pub open spec fn well_formed(self) -> bool {
        &&& self.poll_secs_min <= POLL_PRESETS@[0]
        &&& POLL_PRESETS@.last() <= self.poll_secs_max
        &&& self.standby_poll_secs_min <= self.standby_poll_secs_max
        &&& self.manual_escape_min <= self.manual_escape_max
    }

    /// Settings that reading the file back leaves as they are, given the
    /// shortest watchdog that their poll intervals allow.
    pub open spec fn keeps(self, config: ConfigView, floor: u32) -> bool {
        &&& self.poll_secs_min <= config.poll_secs <= self.poll_secs_max
        &&& self.standby_poll_secs_min <= config.standby_poll_secs <= self.standby_poll_secs_max
        &&& self.manual_escape_min <= config.manual_escape_c <= self.manual_escape_max
        &&& floor <= config.watchdog_secs
    }
}

/// The position of the first profile of that name at or after `from`.
pub open spec fn named_from(profiles: Seq<ProfileView>, name: Seq<char>, from: int) -> Option<int>
    decreases profiles.len() - from,
{
    if from < 0 || from >= profiles.len() {
        None
    } else if profiles[from].name == name {
        Some(from)
    } else {
        named_from(profiles, name, from + 1)
    }
}

/// The position of the first profile of that name.
pub open spec fn named(profiles: Seq<ProfileView>, name: Seq<char>) -> Option<int> {
    named_from(profiles, name, 0)
}

/// What `named` finds is the first profile of that name, and it finds one
/// exactly when there is one.
pub proof fn lemma_named(profiles: Seq<ProfileView>, name: Seq<char>)
    ensures
        match named(profiles, name) {
            Some(i) => 0 <= i < profiles.len() && profiles[i].name == name && forall|j: int|
                0 <= j < i ==> #[trigger] profiles[j].name != name,
            None => forall|j: int| 0 <= j < profiles.len() ==> #[trigger] profiles[j].name != name,
        },
{
    lemma_named_from(profiles, name, 0);
}

proof fn lemma_named_from(profiles: Seq<ProfileView>, name: Seq<char>, from: int)
    requires
        0 <= from <= profiles.len(),
    ensures
        match named_from(profiles, name, from) {
            Some(i) => from <= i < profiles.len() && profiles[i].name == name && forall|j: int|
                from <= j < i ==> #[trigger] profiles[j].name != name,
            None => forall|j: int|
                from <= j < profiles.len() ==> #[trigger] profiles[j].name != name,
        },
    decreases profiles.len() - from,
{
    if from < profiles.len() && profiles[from].name != name {
        lemma_named_from(profiles, name, from + 1);
    }
}

impl ConfigView {
    /// The settings with this curve stored under this name: in place of the
    /// first profile of that name, or after the last one when there is none.
    pub open spec fn with_curve(self, name: Seq<char>, points: Seq<CurvePoint>) -> ConfigView {
        let stored = ProfileView { name, points };
        ConfigView {
            profiles: match named(self.profiles, name) {
                Some(i) => self.profiles.update(i, stored),
                None => self.profiles.push(stored),
            },
            ..self
        }
    }

    /// The settings with this sensor left out of the decision, or taken back
    /// into it.
    pub open spec fn with_sensor_toggled(self, sensor: usize) -> ConfigView {
        ConfigView { ignored_sensors: toggled(self.ignored_sensors, sensor), ..self }
    }

    /// The settings with a watchdog no shorter than `floor`.
    pub open spec fn with_watchdog_floor(self, floor: u32) -> ConfigView {
        ConfigView {
            watchdog_secs: if self.watchdog_secs < floor {
                floor
            } else {
                self.watchdog_secs
            },
            ..self
        }
    }
}

/// A list in ascending order.
pub open spec fn ascending(list: Seq<usize>) -> Seq<usize> {
    list.sort_by(|a: usize, b: usize| a <= b)
}

/// The position of the first occurrence at or after `from`.
pub open spec fn found_from(list: Seq<usize>, item: usize, from: int) -> Option<int>
    decreases list.len() - from,
{
    if from < 0 || from >= list.len() {
        None
    } else if list[from] == item {
        Some(from)
    } else {
        found_from(list, item, from + 1)
    }
}

/// The list without the first occurrence of the item when it has one; the list
/// with the item added, in ascending order, when it has none.
pub open spec fn toggled(list: Seq<usize>, item: usize) -> Seq<usize> {
    match found_from(list, item, 0) {
        Some(i) => list.remove(i),
        None => ascending(list.push(item)),
    }
}

pub(crate) proof fn lemma_found_from(list: Seq<usize>, item: usize, from: int)
    requires
        0 <= from <= list.len(),
    ensures
        match found_from(list, item, from) {
            Some(i) => from <= i < list.len() && list[i] == item && forall|j: int|
                from <= j < i ==> #[trigger] list[j] != item,
            None => forall|j: int| from <= j < list.len() ==> #[trigger] list[j] != item,
        },
    decreases list.len() - from,
{
    if from < list.len() && list[from] != item {
        lemma_found_from(list, item, from + 1);
    }
}

/// A list that is already in order is its own ascending order, and `ascending`
/// is decided by order and content alone.
pub(crate) proof fn lemma_ascending_is(list: Seq<usize>, sorted: Seq<usize>)
    requires
        forall|i: int, j: int| 0 <= i <= j < sorted.len() ==> sorted[i] <= sorted[j],
        sorted.to_multiset() == list.to_multiset(),
    ensures
        ascending(list) == sorted,
{
    let leq = |a: usize, b: usize| a <= b;
    list.lemma_sort_by_ensures(leq);
    assert(sorted_by(sorted, leq));
    lemma_sorted_unique(list.sort_by(leq), sorted, leq);
}

/// Adds an item to a list in ascending order, keeping the order.
fn insert_in_order(list: &mut Vec<usize>, item: usize)
    requires
        forall|i: int, j: int| 0 <= i <= j < old(list)@.len() ==> old(list)@[i] <= old(list)@[j],
        old(list)@.len() < usize::MAX,
    ensures
        forall|i: int, j: int|
            0 <= i <= j < final(list)@.len() ==> final(list)@[i] <= final(list)@[j],
        final(list)@.to_multiset() == old(list)@.to_multiset().insert(item),
        final(list)@.len() == old(list)@.len() + 1,
{
    let mut at: usize = 0;
    while at < list.len() && list[at] < item
        invariant
            at <= list@.len(),
            list@ == old(list)@,
            forall|i: int| 0 <= i < at ==> #[trigger] list@[i] < item,
        decreases list@.len() - at,
    {
        at = at + 1;
    }
    proof {
        to_multiset_insert(list@, at as int, item);
    }
    list.insert(at, item);
}

/// The list in ascending order.
fn sorted_list(list: &Vec<usize>) -> (r: Vec<usize>)
    ensures
        r@ == ascending(list@),
{
    let mut sorted: Vec<usize> = Vec::new();
    let mut i: usize = 0;
    assert(list@.subrange(0, 0) == sorted@);
    while i < list.len()
        invariant
            i <= list@.len(),
            sorted@.len() == i,
            forall|a: int, b: int| 0 <= a <= b < sorted@.len() ==> sorted@[a] <= sorted@[b],
            sorted@.to_multiset() == list@.subrange(0, i as int).to_multiset(),
        decreases list@.len() - i,
    {
        proof {
            let done = list@.subrange(0, i as int);
            assert(list@.subrange(0, i + 1) == done.push(list@[i as int]));
            done.to_multiset_ensures();
        }
        insert_in_order(&mut sorted, list[i]);
        i = i + 1;
    }
    proof {
        assert(list@.subrange(0, i as int) == list@);
        lemma_ascending_is(list@, sorted@);
    }
    sorted
}

/// Takes the first occurrence of the item out of the list, or adds the item
/// and puts the list in ascending order.
pub fn toggle_item(list: &mut Vec<usize>, item: usize)
    ensures
        final(list)@ == toggled(old(list)@, item),
{
    let mut i: usize = 0;
    while i < list.len()
        invariant
            i <= list@.len(),
            list@ == old(list)@,
            found_from(list@, item, 0) == found_from(list@, item, i as int),
        decreases list@.len() - i,
    {
        if list[i] == item {
            list.remove(i);
            return ;
        }
        i = i + 1;
    }
    list.push(item);
    let sorted = sorted_list(list);
    *list = sorted;
}

/// Whether the list holds the item.
pub fn list_holds(list: &Vec<usize>, item: usize) -> (r: bool)
    ensures
        r == list@.contains(item),
{
    let mut i: usize = 0;
    while i < list.len()
        invariant
            i <= list@.len(),
            forall|j: int| 0 <= j < i ==> list@[j] != item,
        decreases list@.len() - i,
    {
        if list[i] == item {
            return true;
        }
        i = i + 1;
    }
    false
}

/// The settings that were read from the file, or the defaults when it could not
/// be read, which is also what a file that is not there means.
pub fn settings_or(loaded: Result<Config, String>, defaults: Config) -> (r: Config)
    ensures
        r@ == match loaded {
            Ok(config) => config@,
            Err(_) => defaults@,
        },
{
    match loaded {
        Ok(config) => config,
        Err(_) => defaults,
    }
}

impl Profile {
    /// A curve under a name.
    pub fn new(name: &String, points: Vec<CurvePoint>) -> (r: Profile)
        ensures
            r@ == (ProfileView { name: name@, points: points@ }),
    {
        Profile { name: name.clone(), points }
    }
}

impl Config {
    /// The position of the first profile of that name.
    pub fn find_profile(&self, name: &String) -> (r: Option<usize>)
        ensures
            match r {
                Some(i) => named(self@.profiles, name@) == Some(i as int) && i
                    < self.profiles@.len(),
                None => named(self@.profiles, name@) is None,
            },
    {
        let mut i: usize = 0;
        while i < self.profiles.len()
            invariant
                i <= self.profiles@.len(),
                named(self@.profiles, name@) == named_from(self@.profiles, name@, i as int),
            decreases self.profiles@.len() - i,
        {
            if self.profiles[i].name == *name {
                return Some(i);
            }
            i = i + 1;
        }
        None
    }

    /// Stores a curve under a name: in place of the first profile of that name,
    /// or as a new one when no profile has it.
    pub fn store_curve(&mut self, name: &String, points: Vec<CurvePoint>)
        ensures
            final(self)@ == old(self)@.with_curve(name@, points@),
    {
        let profile = Profile::new(name, points);
        match self.find_profile(name) {
            Some(i) => {
                let ghost before = self.profiles@;
                self.profiles[i] = profile;
                assert(profile_views(self.profiles@) == profile_views(before).update(
                    i as int,
                    profile@,
                ));
            },
            None => {
                let ghost before = self.profiles@;
                self.profiles.push(profile);
                assert(profile_views(self.profiles@) == profile_views(before).push(profile@));
            },
        }
    }

    /// Leaves a sensor out of the decision, or takes it back into it.
    pub fn toggle_sensor(&mut self, sensor: usize)
        ensures
            final(self)@ == old(self)@.with_sensor_toggled(sensor),
    {
        toggle_item(&mut self.ignored_sensors, sensor);
    }

    /// Lengthens the watchdog to `floor` when it is shorter.
    pub fn raise_watchdog(&mut self, floor: u32)
        ensures
            final(self)@ == old(self)@.with_watchdog_floor(floor),
    {
        if self.watchdog_secs < floor {
            self.watchdog_secs = floor;
        }
    }

    /// The names of the profiles, in order.
    pub fn profile_names(&self) -> (r: Vec<String>)
        ensures
            r@.len() == self@.profiles.len(),
            forall|i: int| 0 <= i < r@.len() ==> #[trigger] r@[i]@ == self@.profiles[i].name,
    {
        let mut names: Vec<String> = Vec::new();
        let mut i: usize = 0;
        while i < self.profiles.len()
            invariant
                i <= self.profiles@.len(),
                names@.len() == i,
                forall|j: int| 0 <= j < i ==> #[trigger] names@[j]@ == self@.profiles[j].name,
            decreases self.profiles@.len() - i,
        {
            names.push(self.profiles[i].name.clone());
            i = i + 1;
        }
        names
    }
}

} // verus!
