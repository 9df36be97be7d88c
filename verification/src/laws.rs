//! What holds of the window as a whole, whatever it is asked.

use crate::config::{
    ascending, found_from, lemma_ascending_is, lemma_found_from, lemma_named, named, toggled,
    ConfigView, CurvePoint, EcLayout, Limits, ProfileView,
};
use crate::input::{answered, handled, signed_word, Facts, Response, MESSAGE_CLOSE};
use crate::job::{
    applying, drawing, ended, over, posting, repainting, AfterOf, AfterView, AskOf, AskView, CurveSource, JobView, ReplyOf,
    ReplyView, ThenOf, ThenView,
};
use crate::knob::{
    above_from, answers_temps, preset_after, shows_temp, Knob, ESCAPE_PRESETS, KNOBS, POLL_PRESETS,
    STANDBY_POLL_PRESETS, WATCHDOG_PRESETS,
};
use crate::menu::{
    meaning, menu_lines, MenuChoice, MenuLine, ProfileAction, PROFILE_DELETE, PROFILE_DUPLICATE,
    PROFILE_IMPORT, PROFILE_MENU_BASE, PROFILE_NEW, PROFILE_RENAME,
};
use crate::panel::{reading_rows, standing_hint, RowRole};
use crate::point::{run_at, waits_at, PointKnob};
use crate::readout::{level_after, level_held, Protocol, ReadoutView, FAN_LEVEL_MAX};
use crate::settings::{wait_nanos, Pending, SettingsView};
use crate::text::decimal;
use vstd::prelude::*;
use vstd::seq_lib::*;

verus! {

// ---------------------------------------------------------------- the rows

/// Every setting has a row, and only one: the rows are told apart by their
/// position.
pub proof fn law_every_setting_has_one_row(knob: Knob)
    ensures
        KNOBS@.contains(knob),
        KNOBS@.no_duplicates(),
{
    let at: int = match knob {
        Knob::Poll => 0,
        Knob::Watchdog => 1,
        Knob::Escape => 2,
        Knob::StandbyPoll => 3,
        Knob::StartIn => 4,
        Knob::Logging => 5,
        Knob::ShowWindow => 6,
        Knob::SingleFan => 7,
        Knob::EcLayout => 8,
    };
    assert(KNOBS@[at] == knob);
}

/// The controller mode row is the last one.
pub proof fn law_controller_mode_is_last()
    ensures
        KNOBS@.last() == Knob::EcLayout,
{
}

/// No two rows have the same name.
pub proof fn law_labels_differ(a: Knob, b: Knob)
    requires
        a != b,
    ensures
        a.label_words() != b.label_words(),
{
    reveal_strlit("Poll");
    reveal_strlit("Watchdog");
    reveal_strlit("Manual escape");
    reveal_strlit("Standby poll");
    reveal_strlit("Start in");
    reveal_strlit("Logging");
    reveal_strlit("Open at start");
    reveal_strlit("Fans");
    reveal_strlit("Controller mode");
    if a.label_words() == b.label_words() {
        assert(a.label_words()[0] == b.label_words()[0]);
        assert(a.label_words().len() == b.label_words().len());
    }
}

/// Every row says what it is for, in a sentence that is no longer than the hint
/// it takes the place of.
pub proof fn law_descriptions_fit(knob: Knob)
    ensures
        0 < knob.description().len() <= standing_hint().len(),
        knob.description().last() == '.',
{
    reveal_strlit("Click a value to change it. Right-click a sensor to leave it out of the decision.");
    reveal_strlit("How often the sensors are read and the fan level decided again.");
    reveal_strlit("If no decision happens for this long, the fan goes back to the firmware.");
    reveal_strlit("A fixed level is held whatever happens. This is the temperature that ends it.");
    reveal_strlit("The poll interval once the machine is asleep. Slower, to save its battery.");
    reveal_strlit("Which mode the engine begins in when it starts. Nothing here moves the fan.");
    reveal_strlit("Writes readings and decisions to a CSV in ProgramData, rotated so it cannot grow.");
    reveal_strlit("Whether this window opens when Yamato starts, or it goes straight to the tray.");
    reveal_strlit("Whether this machine has a second fan. Set Single if fan 2 never reports a speed.");
    reveal_strlit("Advanced. Applies at the next start. The wrong mode stops fan control.");
}

// ------------------------------------------------------------ the presets

/// A list that goes up at every step.
pub open spec fn goes_up(presets: Seq<u32>) -> bool {
    forall|i: int, j: int| 0 <= i < j < presets.len() ==> presets[i] < presets[j]
}

/// What a value has become after a number of clicks through a list of presets.
pub open spec fn after_clicks(presets: Seq<u32>, current: u32, clicks: nat) -> u32
    decreases clicks,
{
    if clicks == 0 {
        current
    } else {
        preset_after(presets, after_clicks(presets, current, (clicks - 1) as nat) as int)
    }
}

proof fn lemma_above_from(presets: Seq<u32>, current: int, from: int)
    requires
        0 <= from <= presets.len(),
    ensures
        match above_from(presets, current, from) {
            Some(p) => exists|i: int|
                {
                    &&& from <= i < presets.len()
                    &&& #[trigger] presets[i] == p
                    &&& p > current
                    &&& forall|j: int| from <= j < i ==> #[trigger] presets[j] <= current
                },
            None => forall|j: int| from <= j < presets.len() ==> #[trigger] presets[j] <= current,
        },
    decreases presets.len() - from,
{
    if from < presets.len() && presets[from] <= current {
        lemma_above_from(presets, current, from + 1);
    }
}

/// A click always lands on a preset: the first one above the value, wherever
/// that value came from, and the first of all when none is above it.
pub proof fn law_a_click_lands_on_a_preset(presets: Seq<u32>, current: int)
    requires
        presets.len() > 0,
    ensures
        presets.contains(preset_after(presets, current)),
        (forall|i: int| 0 <= i < presets.len() ==> #[trigger] presets[i] <= current)
            ==> preset_after(presets, current) == presets[0],
        forall|i: int|
            0 <= i < presets.len() && #[trigger] presets[i] > current && (forall|j: int|
                0 <= j < i ==> #[trigger] presets[j] <= current) ==> preset_after(presets, current)
                == presets[i],
{
    lemma_above_from(presets, current, 0);
}

/// In a list that goes up, a click moves from one preset to the next, and from
/// the last to the first.
pub proof fn law_presets_form_a_ring(presets: Seq<u32>, i: int)
    requires
        goes_up(presets),
        0 <= i < presets.len(),
    ensures
        preset_after(presets, presets[i] as int) == presets[(i + 1) % (presets.len() as int)],
{
    lemma_above_from(presets, presets[i] as int, 0);
    if i + 1 < presets.len() {
        assert((i + 1) % (presets.len() as int) == i + 1) by {
            vstd::arithmetic::div_mod::lemma_small_mod((i + 1) as nat, presets.len());
        }
        assert(presets[i + 1] > presets[i]);
    } else {
        assert((i + 1) % (presets.len() as int) == 0) by {
            vstd::arithmetic::div_mod::lemma_mod_self_0(presets.len() as int);
        }
    }
}

/// Clicking through a list that goes up visits every preset in turn, and as
/// many clicks as there are presets come back to where they started.
pub proof fn law_clicks_visit_every_preset(presets: Seq<u32>, i: int, clicks: nat)
    requires
        goes_up(presets),
        0 <= i < presets.len(),
    ensures
        after_clicks(presets, presets[i], clicks) == presets[(i + clicks) % (presets.len() as int)],
        after_clicks(presets, presets[i], presets.len()) == presets[i],
{
    lemma_clicks_visit(presets, i, clicks);
    lemma_clicks_visit(presets, i, presets.len());
    let n = presets.len() as int;
    assert((i + n) % n == i) by {
        vstd::arithmetic::div_mod::lemma_mod_add_multiples_vanish(i, n);
        vstd::arithmetic::div_mod::lemma_small_mod(i as nat, n as nat);
    }
}

proof fn lemma_clicks_visit(presets: Seq<u32>, i: int, clicks: nat)
    requires
        goes_up(presets),
        0 <= i < presets.len(),
    ensures
        after_clicks(presets, presets[i], clicks) == presets[(i + clicks) % (presets.len() as int)],
        0 <= (i + clicks) % (presets.len() as int) < presets.len(),
    decreases clicks,
{
    let n = presets.len() as int;
    vstd::arithmetic::div_mod::lemma_mod_bound(i + clicks, n);
    if clicks == 0 {
        vstd::arithmetic::div_mod::lemma_small_mod(i as nat, n as nat);
    } else {
        let before = (clicks - 1) as nat;
        lemma_clicks_visit(presets, i, before);
        let at = (i + before) % n;
        law_presets_form_a_ring(presets, at);
        assert((at + 1) % n == (i + clicks) % n) by {
            vstd::arithmetic::div_mod::lemma_add_mod_noop(i + before, 1, n);
            if n == 1 {
            } else {
                vstd::arithmetic::div_mod::lemma_small_mod(1, n as nat);
                vstd::arithmetic::div_mod::lemma_small_mod(at as nat, n as nat);
            }
        }
    }
}

/// A value after one click, and then some more.
proof fn lemma_first_click(presets: Seq<u32>, current: u32, clicks: nat)
    ensures
        after_clicks(presets, current, clicks + 1) == after_clicks(
            presets,
            preset_after(presets, current as int),
            clicks,
        ),
    decreases clicks,
{
    if clicks == 0 {
        assert(after_clicks(presets, current, 0) == current);
    } else {
        lemma_first_click(presets, current, (clicks - 1) as nat);
    }
}

/// How many steps round a ring of `n` lead from one place to another.
proof fn lemma_steps_between(from: int, to: int, n: int) -> (steps: nat)
    requires
        0 <= from < n,
        0 <= to < n,
    ensures
        steps < n,
        (from + steps) % n == to,
{
    if to >= from {
        vstd::arithmetic::div_mod::lemma_small_mod(to as nat, n as nat);
        (to - from) as nat
    } else {
        vstd::arithmetic::div_mod::lemma_mod_add_multiples_vanish(to, n);
        vstd::arithmetic::div_mod::lemma_small_mod(to as nat, n as nat);
        assert(from + (to + n - from) == n + to);
        (to + n - from) as nat
    }
}

/// Wherever a value starts, a preset or not, clicking through a list that goes
/// up shows every preset within as many clicks as there are presets. Answers
/// with the number of clicks.
pub proof fn law_every_preset_is_offered(
    presets: Seq<u32>,
    current: u32,
    wanted: int,
) -> (clicks: nat)
    requires
        goes_up(presets),
        0 <= wanted < presets.len(),
    ensures
        1 <= clicks <= presets.len(),
        after_clicks(presets, current, clicks) == presets[wanted],
{
    let first = preset_after(presets, current as int);
    assert(presets.contains(first)) by {
        law_a_click_lands_on_a_preset(presets, current as int);
    }
    let at = choose|k: int| 0 <= k < presets.len() && presets[k] == first;
    let more = lemma_steps_between(at, wanted, presets.len() as int);
    assert(after_clicks(presets, first, more) == presets[wanted]) by {
        lemma_clicks_visit(presets, at, more);
    }
    lemma_first_click(presets, current, more);
    more + 1
}

/// The values that `seen` shows are the presets, each of them once; and when
/// they were clicked through from a preset, the last is where they started.
pub open spec fn visits_each_once(seen: Seq<u32>, presets: Seq<u32>, start: u32) -> bool {
    &&& seen.len() == presets.len()
    &&& seen.no_duplicates()
    &&& forall|i: int| 0 <= i < presets.len() ==> seen.contains(#[trigger] presets[i])
    &&& presets.contains(start) ==> seen.last() == start
}

/// What is shown after each of as many clicks as there are presets.
pub open spec fn recorded(presets: Seq<u32>, start: u32) -> Seq<u32> {
    Seq::new(presets.len(), |k: int| after_clicks(presets, start, (k + 1) as nat))
}

/// One place after another round a ring of `n`, from `from` on.
proof fn lemma_round_the_ring(from: int, steps: int, n: int)
    requires
        0 <= from < n,
        0 <= steps < n,
    ensures
        (from + steps) % n == if from + steps < n {
            from + steps
        } else {
            from + steps - n
        },
{
    if from + steps < n {
        vstd::arithmetic::div_mod::lemma_small_mod((from + steps) as nat, n as nat);
    } else {
        vstd::arithmetic::div_mod::lemma_mod_add_multiples_vanish(from + steps - n, n);
        vstd::arithmetic::div_mod::lemma_small_mod((from + steps - n) as nat, n as nat);
        assert(n + (from + steps - n) == from + steps);
    }
}

/// As many clicks as there are presets, through a list that goes up, show every
/// preset exactly once, wherever they start; from a preset they come back to it.
pub proof fn law_clicks_show_each_preset_once(presets: Seq<u32>, start: u32)
    requires
        goes_up(presets),
        presets.len() > 0,
    ensures
        visits_each_once(recorded(presets, start), presets, start),
{
    let n = presets.len() as int;
    let seen = recorded(presets, start);
    let first = preset_after(presets, start as int);
    assert(presets.contains(first)) by {
        law_a_click_lands_on_a_preset(presets, start as int);
    }
    let at = choose|k: int| 0 <= k < presets.len() && presets[k] == first;
    assert forall|k: int| 0 <= k < n implies seen[k] == presets[if at + k < n {
        at + k
    } else {
        at + k - n
    }] by {
        lemma_first_click(presets, start, k as nat);
        lemma_clicks_visit(presets, at, k as nat);
        lemma_round_the_ring(at, k, n);
    }
    assert forall|i: int| 0 <= i < presets.len() implies seen.contains(#[trigger] presets[i]) by {
        let clicks = law_every_preset_is_offered(presets, start, i);
        assert(seen[clicks - 1] == presets[i]);
    }
    if presets.contains(start) {
        let i = choose|k: int| 0 <= k < presets.len() && presets[k] == start;
        law_clicks_visit_every_preset(presets, i, 0);
        assert(seen[n - 1] == after_clicks(presets, start, presets.len()));
    }
}

/// All four lists of presets go up.
pub proof fn law_preset_lists_go_up()
    ensures
        goes_up(POLL_PRESETS@),
        goes_up(STANDBY_POLL_PRESETS@),
        goes_up(WATCHDOG_PRESETS@),
        goes_up(ESCAPE_PRESETS@),
{
}

// ------------------------------------------------------- cycling a setting

/// Cycling a row never writes what reading the file back would change: settings
/// inside the limits stay inside them, with a watchdog that is no shorter than
/// the floor of the poll intervals they have then.
pub proof fn law_cycling_stays_inside_the_limits(
    knob: Knob,
    config: ConfigView,
    limits: Limits,
    floor_before: u32,
    floor: u32,
)
    requires
        limits.well_formed(),
        limits.keeps(config, floor_before),
    ensures
        limits.keeps(knob.cycled(config, limits, floor), floor),
{
}

/// The settings after clicks on these rows, in order, where `floor` gives the
/// watchdog's floor for two poll intervals.
pub open spec fn after_clicks_on(
    rows: Seq<Knob>,
    config: ConfigView,
    limits: Limits,
    floor: spec_fn(u32, u32) -> u32,
) -> ConfigView
    decreases rows.len(),
{
    if rows.len() == 0 {
        config
    } else {
        let before = after_clicks_on(rows.drop_last(), config, limits, floor);
        let stepped = rows.last().stepped(before, limits);
        rows.last().cycled(before, limits, floor(stepped.poll_secs, stepped.standby_poll_secs))
    }
}

/// Settings that reading the file back leaves as they are, with the watchdog's
/// floor that their own poll intervals give.
pub open spec fn kept(
    config: ConfigView,
    limits: Limits,
    floor: spec_fn(u32, u32) -> u32,
) -> bool {
    limits.keeps(config, floor(config.poll_secs, config.standby_poll_secs))
}

/// Whatever rows are clicked, in whatever order and however often, settings
/// inside the limits stay inside them.
pub proof fn law_no_clicks_leave_the_limits(
    rows: Seq<Knob>,
    config: ConfigView,
    limits: Limits,
    floor: spec_fn(u32, u32) -> u32,
)
    requires
        limits.well_formed(),
        kept(config, limits, floor),
    ensures
        kept(after_clicks_on(rows, config, limits, floor), limits, floor),
    decreases rows.len(),
{
    if rows.len() > 0 {
        law_no_clicks_leave_the_limits(rows.drop_last(), config, limits, floor);
        let before = after_clicks_on(rows.drop_last(), config, limits, floor);
        let stepped = rows.last().stepped(before, limits);
        law_cycling_stays_inside_the_limits(
            rows.last(),
            before,
            limits,
            floor(before.poll_secs, before.standby_poll_secs),
            floor(stepped.poll_secs, stepped.standby_poll_secs),
        );
    }
}

/// Reading the file enforces the limits: what it gives is inside them, and what
/// is inside them it leaves as it is.
pub open spec fn enforces(
    read: spec_fn(ConfigView) -> ConfigView,
    limits: Limits,
    floor: spec_fn(u32, u32) -> u32,
) -> bool {
    &&& forall|file: ConfigView| kept(#[trigger] read(file), limits, floor)
    &&& forall|file: ConfigView| kept(file, limits, floor) ==> #[trigger] read(file) == file
}

/// No clicks write what reading the file would change. Whatever the file holds,
/// whatever rows are clicked from there on, in whatever order and however often:
/// reading back what was written gives it as it was written, field by field.
pub proof fn law_no_clicks_write_what_reading_would_change(
    rows: Seq<Knob>,
    file: ConfigView,
    read: spec_fn(ConfigView) -> ConfigView,
    limits: Limits,
    floor: spec_fn(u32, u32) -> u32,
)
    requires
        limits.well_formed(),
        enforces(read, limits, floor),
    ensures
        ({
            let written = after_clicks_on(rows, read(file), limits, floor);
            read(written) == written
        }),
{
    law_no_clicks_leave_the_limits(rows, read(file), limits, floor);
}

/// The rows with limits put their own setting inside them wherever it was, as a
/// file edited by hand may have it anywhere.
pub proof fn law_cycling_mends_its_own_setting(
    config: ConfigView,
    limits: Limits,
    floor: u32,
)
    requires
        limits.well_formed(),
    ensures
        limits.poll_secs_min <= Knob::Poll.cycled(config, limits, floor).poll_secs
            <= limits.poll_secs_max,
        limits.standby_poll_secs_min <= Knob::StandbyPoll.cycled(
            config,
            limits,
            floor,
        ).standby_poll_secs <= limits.standby_poll_secs_max,
        limits.manual_escape_min <= Knob::Escape.cycled(config, limits, floor).manual_escape_c
            <= limits.manual_escape_max,
{
}

/// Whatever row is cycled, the watchdog is at least its floor afterwards, and
/// never shorter than it was unless it is the watchdog's own row.
pub proof fn law_a_slower_poll_takes_the_watchdog_with_it(
    knob: Knob,
    config: ConfigView,
    limits: Limits,
    floor: u32,
)
    ensures
        knob.cycled(config, limits, floor).watchdog_secs >= floor,
        knob != Knob::Watchdog ==> knob.cycled(config, limits, floor).watchdog_secs
            >= config.watchdog_secs,
{
}

/// Cycling one row leaves what the others read as it was, but for the watchdog,
/// which its floor may move.
pub proof fn law_cycling_moves_one_row(
    knob: Knob,
    other: Knob,
    config: ConfigView,
    limits: Limits,
    floor: u32,
)
    requires
        knob != other,
        other != Knob::Watchdog,
    ensures
        other.plain_words(knob.cycled(config, limits, floor)) == other.plain_words(config),
        knob != Knob::Escape ==> knob.cycled(config, limits, floor).manual_escape_c
            == config.manual_escape_c,
        ({
            let after = knob.cycled(config, limits, floor);
            &&& after.fahrenheit == config.fahrenheit
            &&& after.log_max_mb == config.log_max_mb
            &&& after.ignored_sensors == config.ignored_sensors
            &&& after.profiles == config.profiles
            &&& after.active_profile == config.active_profile
        }),
{
}

/// A row with two states.
pub open spec fn two_state(knob: Knob) -> bool {
    ||| knob == Knob::StartIn
    ||| knob == Knob::Logging
    ||| knob == Knob::ShowWindow
    ||| knob == Knob::SingleFan
    ||| knob == Knob::EcLayout
}

/// The rows with two states read differently after one click and the same again
/// after two.
pub proof fn law_two_state_rows_go_back(
    knob: Knob,
    config: ConfigView,
    limits: Limits,
    first_floor: u32,
    second_floor: u32,
)
    requires
        two_state(knob),
    ensures
        knob.plain_words(knob.cycled(config, limits, first_floor)) != knob.plain_words(config),
        knob.plain_words(
            knob.cycled(knob.cycled(config, limits, first_floor), limits, second_floor),
        ) == knob.plain_words(config),
{
    reveal_strlit("BIOS");
    reveal_strlit("Smart");
    reveal_strlit("On");
    reveal_strlit("Off");
    reveal_strlit("Window");
    reveal_strlit("Tray only");
    reveal_strlit("Single");
    reveal_strlit("Dual");
    reveal_strlit("Compatibility");
    reveal_strlit("Standard");
    assert("BIOS"@.len() != "Smart"@.len());
    assert("On"@.len() != "Off"@.len());
    assert("Window"@.len() != "Tray only"@.len());
    assert("Single"@.len() != "Dual"@.len());
    assert("Compatibility"@.len() != "Standard"@.len());
}

/// The controller mode row is an override between the two real modes: a click
/// always leaves one of them, never the undecided state.
pub proof fn law_controller_mode_is_decided_by_a_click(
    config: ConfigView,
    limits: Limits,
    floor: u32,
)
    ensures
        Knob::EcLayout.cycled(config, limits, floor).ec_layout == if config.ec_layout == Some(
            EcLayout::Compat,
        ) {
            Some(EcLayout::Standard)
        } else {
            Some(EcLayout::Compat)
        },
{
}

/// The settings after a number of clicks on one row, where `floor` gives the
/// watchdog's floor for two poll intervals.
pub open spec fn after_row_clicks(
    knob: Knob,
    config: ConfigView,
    limits: Limits,
    floor: spec_fn(u32, u32) -> u32,
    clicks: nat,
) -> ConfigView
    decreases clicks,
{
    if clicks == 0 {
        config
    } else {
        let before = after_row_clicks(knob, config, limits, floor, (clicks - 1) as nat);
        let stepped = knob.stepped(before, limits);
        knob.cycled(before, limits, floor(stepped.poll_secs, stepped.standby_poll_secs))
    }
}

/// Every preset of a list is inside a range.
pub open spec fn presets_within(presets: Seq<u32>, low: int, high: int) -> bool {
    forall|i: int| 0 <= i < presets.len() ==> low <= #[trigger] presets[i] <= high
}

/// As many clicks on the poll row as there are presets show every preset exactly
/// once, whatever it starts from; and from a preset they come back to it.
pub proof fn law_the_poll_row_visits_every_preset(
    config: ConfigView,
    limits: Limits,
    floor: spec_fn(u32, u32) -> u32,
)
    requires
        limits.well_formed(),
    ensures
        visits_each_once(
            Seq::new(
                POLL_PRESETS@.len(),
                |k: int|
                    after_row_clicks(
                        Knob::Poll,
                        config,
                        limits,
                        floor,
                        (k + 1) as nat,
                    ).poll_secs,
            ),
            POLL_PRESETS@,
            config.poll_secs,
        ),
{
    let seen = Seq::new(
        POLL_PRESETS@.len(),
        |k: int|
            after_row_clicks(Knob::Poll, config, limits, floor, (k + 1) as nat).poll_secs,
    );
    law_preset_lists_go_up();
    law_clicks_show_each_preset_once(POLL_PRESETS@, config.poll_secs);
    assert forall|k: int| 0 <= k < seen.len() implies seen[k] == recorded(
        POLL_PRESETS@,
        config.poll_secs,
    )[k] by {
        lemma_poll_row_clicks(config, limits, floor, (k + 1) as nat);
    }
    assert(seen == recorded(POLL_PRESETS@, config.poll_secs));
}

proof fn lemma_poll_row_clicks(
    config: ConfigView,
    limits: Limits,
    floor: spec_fn(u32, u32) -> u32,
    clicks: nat,
)
    requires
        limits.well_formed(),
    ensures
        after_row_clicks(Knob::Poll, config, limits, floor, clicks).poll_secs == after_clicks(
            POLL_PRESETS@,
            config.poll_secs,
            clicks,
        ),
    decreases clicks,
{
    if clicks > 0 {
        let before = (clicks - 1) as nat;
        lemma_poll_row_clicks(config, limits, floor, before);
        law_a_click_lands_on_a_preset(
            POLL_PRESETS@,
            after_clicks(POLL_PRESETS@, config.poll_secs, before) as int,
        );
    }
}

/// So does the standby poll row, exactly when the limits hold its presets.
pub proof fn law_the_standby_poll_row_visits_every_preset(
    config: ConfigView,
    limits: Limits,
    floor: spec_fn(u32, u32) -> u32,
)
    requires
        limits.well_formed(),
    ensures
        visits_each_once(
            Seq::new(
                STANDBY_POLL_PRESETS@.len(),
                |k: int| after_row_clicks(Knob::StandbyPoll, config, limits, floor, (k + 1) as nat).standby_poll_secs,
            ),
            STANDBY_POLL_PRESETS@,
            config.standby_poll_secs,
        ) <==> presets_within(
            STANDBY_POLL_PRESETS@,
            limits.standby_poll_secs_min as int,
            limits.standby_poll_secs_max as int,
        ),
{
    let seen = Seq::new(
        STANDBY_POLL_PRESETS@.len(),
        |k: int| after_row_clicks(Knob::StandbyPoll, config, limits, floor, (k + 1) as nat).standby_poll_secs,
    );
    if presets_within(
            STANDBY_POLL_PRESETS@,
            limits.standby_poll_secs_min as int,
            limits.standby_poll_secs_max as int,
        ) {
        law_preset_lists_go_up();
        law_clicks_show_each_preset_once(STANDBY_POLL_PRESETS@, config.standby_poll_secs);
        assert forall|k: int| 0 <= k < seen.len() implies seen[k] == recorded(
            STANDBY_POLL_PRESETS@,
            config.standby_poll_secs,
        )[k] by {
            lemma_standby_row_clicks(config, limits, floor, (k + 1) as nat);
        }
        assert(seen == recorded(STANDBY_POLL_PRESETS@, config.standby_poll_secs));
    } else if visits_each_once(seen, STANDBY_POLL_PRESETS@, config.standby_poll_secs) {
        assert forall|i: int| 0 <= i < STANDBY_POLL_PRESETS@.len() implies limits.standby_poll_secs_min
            <= #[trigger] STANDBY_POLL_PRESETS@[i] <= limits.standby_poll_secs_max by {
            assert(seen.contains(STANDBY_POLL_PRESETS@[i]));
            let k = choose|k: int| 0 <= k < seen.len() && seen[k] == STANDBY_POLL_PRESETS@[i];
            let shown = after_row_clicks(Knob::StandbyPoll, config, limits, floor, (k + 1) as nat);
            assert(limits.standby_poll_secs_min <= shown.standby_poll_secs <= limits.standby_poll_secs_max);
        }
    }
}

proof fn lemma_standby_row_clicks(
    config: ConfigView,
    limits: Limits,
    floor: spec_fn(u32, u32) -> u32,
    clicks: nat,
)
    requires
        presets_within(
            STANDBY_POLL_PRESETS@,
            limits.standby_poll_secs_min as int,
            limits.standby_poll_secs_max as int,
        ),
    ensures
        after_row_clicks(Knob::StandbyPoll, config, limits, floor, clicks).standby_poll_secs
            == after_clicks(STANDBY_POLL_PRESETS@, config.standby_poll_secs, clicks),
    decreases clicks,
{
    if clicks > 0 {
        let before = (clicks - 1) as nat;
        lemma_standby_row_clicks(config, limits, floor, before);
        law_a_click_lands_on_a_preset(
            STANDBY_POLL_PRESETS@,
            after_clicks(STANDBY_POLL_PRESETS@, config.standby_poll_secs, before) as int,
        );
    }
}

/// And so does the manual escape row, from below zero too, exactly when the
/// limits hold its presets.
pub proof fn law_the_escape_row_visits_every_preset(
    config: ConfigView,
    limits: Limits,
    floor: spec_fn(u32, u32) -> u32,
)
    requires
        limits.well_formed(),
    ensures
        visits_each_once(
            Seq::new(
                ESCAPE_PRESETS@.len(),
                |k: int| from_zero(after_row_clicks(Knob::Escape, config, limits, floor, (k + 1) as nat)),
            ),
            ESCAPE_PRESETS@,
            from_zero(config),
        ) <==> presets_within(
            ESCAPE_PRESETS@,
            limits.manual_escape_min as int,
            limits.manual_escape_max as int,
        ),
{
    let seen = Seq::new(
        ESCAPE_PRESETS@.len(),
        |k: int| from_zero(after_row_clicks(Knob::Escape, config, limits, floor, (k + 1) as nat)),
    );
    if presets_within(
            ESCAPE_PRESETS@,
            limits.manual_escape_min as int,
            limits.manual_escape_max as int,
        ) {
        law_preset_lists_go_up();
        law_clicks_show_each_preset_once(ESCAPE_PRESETS@, from_zero(config));
        assert forall|k: int| 0 <= k < seen.len() implies seen[k] == recorded(
            ESCAPE_PRESETS@,
            from_zero(config),
        )[k] by {
            lemma_escape_row_clicks(config, limits, floor, (k + 1) as nat);
        }
        assert(seen == recorded(ESCAPE_PRESETS@, from_zero(config)));
    } else if visits_each_once(seen, ESCAPE_PRESETS@, from_zero(config)) {
        assert forall|i: int| 0 <= i < ESCAPE_PRESETS@.len() implies limits.manual_escape_min
            <= #[trigger] ESCAPE_PRESETS@[i] <= limits.manual_escape_max by {
            assert(seen.contains(ESCAPE_PRESETS@[i]));
            let k = choose|k: int| 0 <= k < seen.len() && seen[k] == ESCAPE_PRESETS@[i];
            let shown = after_row_clicks(Knob::Escape, config, limits, floor, (k + 1) as nat);
            assert(limits.manual_escape_min <= shown.manual_escape_c <= limits.manual_escape_max);
        }
    }
}

/// The manual escape a step counts from, which is never below zero.
pub open spec fn from_zero(config: ConfigView) -> u32 {
    if config.manual_escape_c < 0 {
        0
    } else {
        config.manual_escape_c as u32
    }
}

proof fn lemma_escape_row_clicks(
    config: ConfigView,
    limits: Limits,
    floor: spec_fn(u32, u32) -> u32,
    clicks: nat,
)
    requires
        presets_within(
            ESCAPE_PRESETS@,
            limits.manual_escape_min as int,
            limits.manual_escape_max as int,
        ),
    ensures
        clicks > 0 ==> after_row_clicks(
            Knob::Escape,
            config,
            limits,
            floor,
            clicks,
        ).manual_escape_c == after_clicks(ESCAPE_PRESETS@, from_zero(config), clicks),
    decreases clicks,
{
    if clicks > 0 {
        let before = (clicks - 1) as nat;
        lemma_escape_row_clicks(config, limits, floor, before);
        law_a_click_lands_on_a_preset(
            ESCAPE_PRESETS@,
            after_clicks(ESCAPE_PRESETS@, from_zero(config), before) as int,
        );
    }
}

/// The watchdog row shows what is in force: the next preset, or the floor where
/// that is longer.
pub proof fn law_the_watchdog_row_shows_what_is_in_force(
    config: ConfigView,
    limits: Limits,
    floor: u32,
)
    ensures
        ({
            let next = preset_after(WATCHDOG_PRESETS@, config.watchdog_secs as int);
            Knob::Watchdog.cycled(config, limits, floor).watchdog_secs == if next < floor {
                floor
            } else {
                next
            }
        }),
{
}

/// The manual escape row reads what the rest of the window would show for that
/// temperature: the number on display, immediately followed by the unit.
pub proof fn law_the_escape_row_uses_the_unit_on_screen<
    D: Fn(i8, bool) -> i32,
    U: Fn(bool) -> String,
>(
    config: ConfigView,
    display_temp: D,
    unit_suffix: U,
    row: Seq<char>,
    text: Seq<char>,
    shown: i32,
    suffix: String,
)
    requires
        answers_temps(display_temp, unit_suffix),
        Knob::Escape.reads(config, display_temp, unit_suffix, row),
        shows_temp(
            display_temp,
            unit_suffix,
            config.manual_escape_c,
            config.fahrenheit,
            text,
        ),
        display_temp.ensures((config.manual_escape_c, config.fahrenheit), shown),
        unit_suffix.ensures((config.fahrenheit,), suffix),
    ensures
        row == text,
        text == decimal(shown as int) + suffix@,
{
}

// ------------------------------------------------------ the chosen point

/// A point with nothing to wait for says so in words, and one with something to
/// wait for says something else.
pub proof fn law_no_wait_is_said_in_words(knob: PointKnob, point: CurvePoint)
    ensures
        knob.degrees(point) == 0 <==> knob.value_words(point) == "right away"@,
{
    reveal_strlit("right away");
    reveal_strlit("\u{00b0} cooler");
    reveal_strlit("\u{00b0} hotter");
    if knob.degrees(point) != 0 {
        assert(knob.value_words(point).last() == 'r');
        assert("right away"@.last() == 'y');
    }
}

/// The runs of a curve meet: each ends where the next begins, at the level the
/// next one runs, and the last holds to the edge.
pub proof fn law_runs_meet(points: Seq<CurvePoint>, i: int)
    requires
        0 <= i < points.len(),
    ensures
        i + 1 < points.len() ==> {
            &&& run_at(points, i).until == Some(run_at(points, i + 1).from)
            &&& run_at(points, i).next_level == Some(run_at(points, i + 1).level)
        },
        i + 1 == points.len() ==> run_at(points, i).until is None && run_at(
            points,
            i,
        ).next_level is None,
{
}

/// Every wait lies against its step, below it while cooling and above it while
/// heating up, and has a width.
pub proof fn law_waits_lie_against_their_step(points: Seq<CurvePoint>, i: int, k: int)
    requires
        1 <= i < points.len(),
        0 <= k < waits_at(points, i).len(),
    ensures
        ({
            let wait = waits_at(points, i)[k];
            &&& wait.at == points[i].temp
            &&& wait.from < wait.until
            &&& wait.cooling ==> wait.until == wait.at
            &&& !wait.cooling ==> wait.from == wait.at
            &&& wait.upper_level == points[i].level
            &&& wait.lower_level == points[i - 1].level
        }),
{
}

// ------------------------------------------------------- modes and levels

/// Clicks on the Mode row have two stops, the firmware and the curve: a click
/// always leads to the other one of them, and two clicks go round.
pub proof fn law_two_mode_clicks_go_round(protocol: Protocol, mode: u8)
    requires
        protocol.distinct(),
    ensures
        mode == protocol.mode_bios ==> protocol.mode_after(mode) == protocol.mode_smart,
        mode == protocol.mode_smart ==> protocol.mode_after(mode) == protocol.mode_bios,
        mode == protocol.mode_bios || mode == protocol.mode_smart ==> protocol.mode_after(
            protocol.mode_after(mode),
        ) == mode,
{
}

/// No click on the Mode row arrives at a held level, and a click while one is
/// held lands on the curve.
pub proof fn law_cycling_never_takes_management_away(s: SettingsView)
    requires
        s.protocol.distinct(),
    ensures
        s.mode_click().0 != s.protocol.mode_manual,
        s.mode_click().0 == s.protocol.mode_bios || s.mode_click().0 == s.protocol.mode_smart,
        s.mode_click().1 == 0,
        s.readout.mode_raw == s.protocol.mode_manual ==> s.mode_click().0 == s.protocol.mode_smart,
{
}

/// The level that is shown and counted from is always one worth holding, and
/// never zero.
pub proof fn law_a_held_level_is_never_zero(fan_ctrl: u8)
    ensures
        1 <= level_held(fan_ctrl) <= FAN_LEVEL_MAX,
{
}

/// The level after a number of steps.
pub open spec fn after_level_steps(level: u8, steps: nat) -> u8
    decreases steps,
{
    if steps == 0 {
        level
    } else {
        level_after(after_level_steps(level, (steps - 1) as nat))
    }
}

/// Stepping the level stays in the ring from 1 to 7, and seven steps go once
/// round.
pub proof fn law_seven_level_steps_go_round(level: u8)
    requires
        1 <= level <= FAN_LEVEL_MAX,
    ensures
        1 <= level_after(level) <= FAN_LEVEL_MAX,
        level_after(level) == if level == FAN_LEVEL_MAX {
            1
        } else {
            level + 1
        },
        after_level_steps(level, 7) == level,
{
    reveal_with_fuel(after_level_steps, 8);
}

/// No click asks the engine to hold level zero.
pub proof fn law_no_click_stops_the_fan(s: SettingsView)
    requires
        s.protocol.distinct(),
    ensures
        s.mode_click().0 != s.protocol.mode_manual,
        s.level_click().0 == s.protocol.mode_manual,
        1 <= s.level_click().1 <= FAN_LEVEL_MAX,
{
    law_seven_level_steps_go_round(level_held(s.readout.fan_ctrl));
}

// -------------------------------------------- commands that are under way

/// A report with a command written over it agrees with the command, and writing
/// it over again changes nothing.
pub proof fn law_showing_a_command_settles_it(
    readout: ReadoutView,
    protocol: Protocol,
    pending: Pending,
)
    ensures
        readout.showing(protocol, pending).agrees(protocol, pending),
        readout.showing(protocol, pending).showing(protocol, pending) == readout.showing(
            protocol,
            pending,
        ),
{
}

/// A click is not undone by a report that still describes the mode being left:
/// until the deadline the window shows what was asked for, whatever comes in,
/// and the next click counts from it.
pub proof fn law_a_click_is_not_undone(
    s: SettingsView,
    mode: u8,
    level: u8,
    now: u128,
    report: ReadoutView,
    later: u128,
    on_disk: ConfigView,
    over_picker: bool,
)
    requires
        now + wait_nanos(s.config.poll_secs) <= u128::MAX,
        later < now + wait_nanos(s.config.poll_secs),
    ensures
        ({
            let shown = s.awaiting(mode, level, now).sampled(report, later, on_disk, over_picker);
            &&& shown.readout.mode_raw == mode
            &&& mode == s.protocol.mode_manual ==> shown.readout.fan_ctrl == level
            &&& shown.mode_click().0 == s.protocol.mode_after(mode)
            &&& mode == s.protocol.mode_manual && 1 <= level <= FAN_LEVEL_MAX
                ==> shown.level_click().1 == level_after(level)
        }),
{
}

/// A command that never arrives stops being shown: the first report at or after
/// the deadline is shown as it came.
pub proof fn law_an_unanswered_command_is_dropped(
    s: SettingsView,
    mode: u8,
    level: u8,
    now: u128,
    report: ReadoutView,
    later: u128,
    on_disk: ConfigView,
    over_picker: bool,
)
    requires
        now + wait_nanos(s.config.poll_secs) <= u128::MAX,
        later >= now + wait_nanos(s.config.poll_secs),
    ensures
        ({
            let shown = s.awaiting(mode, level, now).sampled(report, later, on_disk, over_picker);
            shown.pending is None && shown.readout == report
        }),
{
}

/// A command that has arrived is forgotten, and reports are shown as they come
/// from there on.
pub proof fn law_an_answered_command_is_forgotten(
    s: SettingsView,
    pending: Pending,
    report: ReadoutView,
    later: u128,
    on_disk: ConfigView,
    over_picker: bool,
    next_report: ReadoutView,
    even_later: u128,
)
    requires
        s.pending == Some(pending),
        report.agrees(s.protocol, pending),
    ensures
        ({
            let shown = s.sampled(report, later, on_disk, over_picker);
            &&& shown.pending is None
            &&& shown.readout == report
            &&& shown.sampled(next_report, even_later, on_disk, over_picker).readout == next_report
        }),
{
}

// ------------------------------------------------------------ saving curves

/// The profile that a name finds.
pub open spec fn profile_of(config: ConfigView, name: Seq<char>) -> Option<ProfileView> {
    match named(config.profiles, name) {
        Some(i) => Some(config.profiles[i]),
        None => None,
    }
}

/// What is stored under a name is what that name finds afterwards, and what
/// every other name finds is as it was.
pub proof fn law_a_curve_lands_in_its_own_profile(
    config: ConfigView,
    name: Seq<char>,
    points: Seq<CurvePoint>,
    other: Seq<char>,
)
    ensures
        profile_of(config.with_curve(name, points), name) == Some(ProfileView { name, points }),
        other != name ==> profile_of(config.with_curve(name, points), other) == profile_of(
            config,
            other,
        ),
        config.with_curve(name, points).active_profile == config.active_profile,
        config.profiles.len() <= config.with_curve(name, points).profiles.len()
            <= config.profiles.len() + 1,
{
    let after = config.with_curve(name, points);
    lemma_named(config.profiles, name);
    lemma_named(config.profiles, other);
    lemma_named(after.profiles, name);
    lemma_named(after.profiles, other);
    match named(config.profiles, name) {
        Some(i) => {
            assert(after.profiles[i].name == name);
            assert(forall|j: int|
                0 <= j < config.profiles.len() ==> after.profiles[j].name
                    == config.profiles[j].name);
            match named(after.profiles, name) {
                Some(k) => {
                    if k < i {
                        assert(config.profiles[k].name == name);
                    } else if k > i {
                        assert(after.profiles[i].name != name);
                    }
                },
                None => {},
            }
            if other != name {
                lemma_named_same(config.profiles, after.profiles, other);
            }
        },
        None => {
            let last = config.profiles.len() as int;
            assert(after.profiles[last].name == name);
            match named(after.profiles, name) {
                Some(k) => {
                    if k < last {
                        assert(config.profiles[k].name == name);
                    }
                },
                None => {},
            }
            if other != name {
                lemma_named_pushed(config.profiles, after.profiles[last], other);
            }
        },
    }
}

proof fn lemma_named_same(before: Seq<ProfileView>, after: Seq<ProfileView>, name: Seq<char>)
    requires
        before.len() == after.len(),
        forall|j: int| 0 <= j < before.len() ==> after[j].name == #[trigger] before[j].name,
    ensures
        named(after, name) == named(before, name),
{
    lemma_named(before, name);
    lemma_named(after, name);
    match (named(before, name), named(after, name)) {
        (Some(i), Some(k)) => {
            if i < k {
                assert(after[i].name == before[i].name);
            } else if k < i {
                assert(after[k].name == before[k].name);
            }
        },
        (Some(i), None) => {
            assert(after[i].name == before[i].name);
        },
        (None, Some(k)) => {
            assert(after[k].name == before[k].name);
        },
        _ => {},
    }
}

proof fn lemma_named_pushed(before: Seq<ProfileView>, added: ProfileView, name: Seq<char>)
    requires
        added.name != name,
    ensures
        named(before.push(added), name) == named(before, name),
{
    let after = before.push(added);
    lemma_named(before, name);
    lemma_named(after, name);
    match (named(before, name), named(after, name)) {
        (Some(i), Some(k)) => {
            if i < k {
                assert(after[i].name == before[i].name);
            } else if k < i {
                assert(after[k].name == before[k].name);
            }
        },
        (Some(i), None) => {
            assert(after[i].name == before[i].name);
        },
        (None, Some(k)) => {
            assert(k < before.len());
            assert(after[k].name == before[k].name);
        },
        _ => {},
    }
}

/// The state and job after a list of answers.
pub open spec fn run(
    s: SettingsView,
    job: JobView,
    replies: Seq<ReplyView>,
) -> (SettingsView, JobView)
    decreases replies.len(),
{
    if replies.len() == 0 {
        (s, job)
    } else {
        let (t, next) = s.next(job, replies[0]);
        run(t, next, replies.drop_first())
    }
}

/// Saving asks for the curve, reads the file, writes it back with the curve
/// stored under the profile it came from, and goes on. Nothing in the window
/// changes on the way.
pub proof fn law_saving_writes_the_profile_being_edited(
    s: SettingsView,
    after: AfterView,
    points: Seq<CurvePoint>,
    file: ConfigView,
)
    ensures
        run(
            s,
            applying(after),
            seq![ReplyOf::Validated(Ok(points)), ReplyOf::Loaded(Ok(file))],
        ) == (
            s,
            JobView {
                ask: AskOf::Save(file.with_curve(s.editing, points)),
                purpose: ThenOf::ApplySaved(after),
            },
        ),
        run(
            s,
            JobView {
                ask: AskOf::Save(file.with_curve(s.editing, points)),
                purpose: ThenOf::ApplySaved(after),
            },
            seq![ReplyOf::Saved(Ok(())), ReplyOf::Acknowledged],
        ) == (s, s.continuing(after, None)),
{
    reveal_with_fuel(run, 3);
    let first: Seq<ReplyView> = seq![ReplyOf::Validated(Ok(points)), ReplyOf::Loaded(Ok(file))];
    assert(first.drop_first()[0] == first[1]);
    assert(first.drop_first().drop_first().len() == 0);
    let second: Seq<ReplyView> = seq![ReplyOf::Saved(Ok(())), ReplyOf::Acknowledged];
    assert(second.drop_first()[0] == second[1]);
    assert(second.drop_first().drop_first().len() == 0);
}

/// The job is saving the curve on screen on behalf of `after`.
pub open spec fn saving_for(job: JobView, after: AfterView) -> bool {
    match job.purpose {
        ThenOf::ApplyLoad(a) => a == after,
        ThenOf::ApplyStore { after: a, .. } => a == after,
        ThenOf::ApplySaved(a) => a == after,
        _ => false,
    }
}

/// Why saving has failed, when the answer says that it has.
pub open spec fn failure_in(reply: ReplyView) -> Option<Seq<char>> {
    match reply {
        ReplyOf::Validated(Err(why)) => Some(why),
        ReplyOf::Loaded(Err(why)) => Some(why),
        ReplyOf::Saved(Err(why)) => Some(why),
        _ => None,
    }
}

/// A curve that cannot be saved is not left: switching, managing and importing
/// all stop there, with nothing changed.
pub proof fn law_a_failed_save_stops_the_switch(
    s: SettingsView,
    job: JobView,
    reply: ReplyView,
    after: AfterView,
)
    requires
        saving_for(job, after),
        coherent(job),
        answers(job.ask, reply),
        failure_in(reply) is Some,
        after is Switch || after is Manage || after is Import,
    ensures
        s.next(job, reply) == (s, ended(failure_in(reply))),
{
}

/// Saving on request ends with the text of the first thing that failed: the
/// curve, then the reading of the file, then the writing of it. Nothing is
/// written after a failure, nothing is marked as saved, and nothing in the
/// window changes. When nothing fails it ends with none.
pub proof fn law_a_failed_save_says_why(
    s: SettingsView,
    points: Seq<CurvePoint>,
    file: ConfigView,
    why: Seq<char>,
)
    ensures
        ({
            let apply = applying(AfterOf::Finish { repaint: true });
            let curve = ReplyView::Validated(Ok(points));
            let read = ReplyView::Loaded(Ok(file));
            let written = ReplyView::Saved(Ok(()));
            let done = ReplyView::Acknowledged;
            &&& run(s, apply, seq![ReplyView::Validated(Err(why))]) == (s, drawing(Some(why)))
            &&& run(s, apply, seq![curve, ReplyView::Loaded(Err(why))]) == (s, drawing(Some(why)))
            &&& run(s, apply, seq![curve, read, ReplyView::Saved(Err(why))]) == (
                s,
                drawing(Some(why)),
            )
            &&& run(s, apply, seq![curve, read, written, done]) == (s, drawing(None))
            &&& s.next(drawing(Some(why)), done) == (s, ended(Some(why)))
            &&& s.next(drawing(None), done) == (s, ended(None))
        }),
{
    reveal_with_fuel(run, 5);
    let apply = applying(AfterOf::Finish { repaint: true });
    let curve = ReplyView::Validated(Ok(points));
    let read = ReplyView::Loaded(Ok(file));
    let one: Seq<ReplyView> = seq![ReplyView::Validated(Err(why))];
    assert(one.drop_first().len() == 0);
    let two: Seq<ReplyView> = seq![curve, ReplyView::Loaded(Err(why))];
    assert(two.drop_first()[0] == two[1]);
    assert(two.drop_first().drop_first().len() == 0);
    let three: Seq<ReplyView> = seq![curve, read, ReplyView::Saved(Err(why))];
    assert(three.drop_first()[0] == three[1]);
    assert(three.drop_first().drop_first()[0] == three[2]);
    assert(three.drop_first().drop_first().drop_first().len() == 0);
    let four: Seq<ReplyView> = seq![curve, read, ReplyView::Saved(Ok(())), ReplyView::Acknowledged];
    assert(four.drop_first()[0] == four[1]);
    assert(four.drop_first().drop_first()[0] == four[2]);
    assert(four.drop_first().drop_first().drop_first()[0] == four[3]);
    assert(four.drop_first().drop_first().drop_first().drop_first().len() == 0);
}

/// Saving without being asked to, on the way out, ends the same way with nothing
/// drawn.
pub proof fn law_a_failed_save_on_the_way_out_says_why(
    s: SettingsView,
    job: JobView,
    reply: ReplyView,
)
    requires
        saving_for(job, AfterOf::Finish { repaint: false }),
        coherent(job),
        answers(job.ask, reply),
        failure_in(reply) is Some,
    ensures
        s.next(job, reply) == (s, ended(failure_in(reply))),
{
}

/// Switching to another profile, once the curve on screen is saved: the file is
/// read again, written with the new choice, announced to the engine without a
/// word on the mode, and adopted. From there on saving means saving that
/// profile.
pub proof fn law_switching_moves_the_editor_too(
    s: SettingsView,
    name: Seq<char>,
    file: ConfigView,
    sent: Option<u128>,
)
    ensures
        run(
            s,
            s.continuing(AfterOf::Switch(name), None),
            seq![
                ReplyOf::Loaded(Ok(file)),
                ReplyOf::Saved(Ok(())),
                ReplyOf::Posted(sent),
            ],
        ) == (
            SettingsView {
                editing: name,
                config: ConfigView { active_profile: name, ..file },
                ..s
            },
            JobView { ask: AskOf::ShowActive, purpose: ThenOf::AdoptShown { say: None } },
        ),
{
    reveal_with_fuel(run, 4);
    let replies: Seq<ReplyView> = seq![ReplyOf::Loaded(Ok(file)), ReplyOf::Saved(Ok(())), ReplyOf::Posted(sent)];
    assert(replies.drop_first()[0] == replies[1]);
    assert(replies.drop_first().drop_first()[0] == replies[2]);
    assert(replies.drop_first().drop_first().drop_first().len() == 0);
}

/// No step of a job sends the engine anything but the name of a profile: the
/// mode stays whoever's it is.
pub proof fn law_profile_commands_keep_the_mode(
    s: SettingsView,
    job: JobView,
    reply: ReplyView,
)
    ensures
        s.next(job, reply).1.ask matches AskOf::Post { mode, level, .. } ==> mode
            == s.protocol.mode_keep && level == 0,
{
}

/// A step leaves the report and the commands under way alone, unless it is the
/// sending of a mode; and it never touches what the pointer is over.
pub proof fn law_steps_leave_the_readings_alone(
    s: SettingsView,
    job: JobView,
    reply: ReplyView,
)
    ensures
        s.next(job, reply).0.protocol == s.protocol,
        s.next(job, reply).0.hover == s.hover,
        !(job.purpose is ModePosted) ==> s.next(job, reply).0.readout == s.readout && s.next(
            job,
            reply,
        ).0.pending == s.pending,
{
}

/// The profile being edited changes only to the one that the settings in hand
/// select.
pub proof fn law_editing_moves_only_to_the_selected_profile(
    s: SettingsView,
    job: JobView,
    reply: ReplyView,
)
    ensures
        ({
            let t = s.next(job, reply).0;
            t.editing == s.editing || t.editing == t.config.active_profile
        }),
{
}

/// The settings in hand change only to ones just written, or to ones that a job
/// has waiting to be taken over.
pub proof fn law_settings_in_hand_were_written(s: SettingsView, job: JobView, reply: ReplyView)
    ensures
        ({
            let t = s.next(job, reply).0;
            ||| t.config == s.config
            ||| {
                &&& job.purpose is FileSaved
                &&& reply matches ReplyOf::Saved(Ok(_))
                &&& job.ask == AskView::Save(t.config)
            }
            ||| job.purpose matches ThenOf::Adopt { config, .. } && t.config == config
        }),
{
}

/// A job has settings waiting to be taken over only once they are on disk: they
/// were just written, or an edit of the profiles or an import has written them.
pub proof fn law_adopted_settings_were_written(s: SettingsView, job: JobView, reply: ReplyView)
    ensures
        s.next(job, reply).1.purpose matches ThenOf::Adopt { config, .. } ==> {
            ||| {
                &&& job.purpose is SwitchSaved
                &&& job.ask == AskView::Save(config)
                &&& (reply matches ReplyOf::Saved(Ok(_)))
            }
            ||| reply == ReplyView::ProfilesEdited(Ok(config))
            ||| reply matches ReplyOf::Imported(Some(Ok(outcome))) && outcome.0 == config
        },
{
}

/// Deleting a profile saves nothing on the way, whatever has been changed.
pub proof fn law_deleting_saves_nothing(s: SettingsView, dirty: bool)
    ensures
        s.managing(ProfileAction::Delete, dirty) == s.asking(ProfileAction::Delete),
        s.managing(ProfileAction::Delete, dirty).ask is Confirm,
{
}

/// A profile that has been deleted elsewhere does not come back because this
/// window was open with changes to it: it is not saved before the window moves
/// on.
pub proof fn law_a_deleted_profile_stays_deleted(s: SettingsView, file: ConfigView, dirty: bool)
    requires
        forall|i: int| 0 <= i < file.profiles.len() ==> #[trigger] file.profiles[i].name
            != s.editing,
    ensures
        s.next(
            JobView { ask: AskOf::Load, purpose: ThenOf::FollowStore { dirty } },
            ReplyOf::Loaded(Ok(file)),
        ) == (s, s.following(file)),
        !(s.following(file).ask is Validate),
        !(s.following(file).ask is Save),
{
    lemma_named(file.profiles, s.editing);
}

/// A curve changed under a profile that is still there goes back to that profile
/// before the window moves on to the one that was selected elsewhere.
pub proof fn law_a_switch_elsewhere_keeps_the_work(s: SettingsView, file: ConfigView)
    requires
        named(file.profiles, s.editing) is Some,
    ensures
        s.next(
            JobView { ask: AskOf::Load, purpose: ThenOf::FollowStore { dirty: true } },
            ReplyOf::Loaded(Ok(file)),
        ) == (s, applying(AfterOf::Follow(file))),
{
}

/// Discarding writes nothing and tells the engine nothing: it reads the file and
/// shows what is stored there under the profile being edited, or what the file
/// runs when that profile is gone.
pub proof fn law_discarding_goes_back_to_the_file(
    s: SettingsView,
    file: ConfigView,
    reply: ReplyView,
)
    ensures
        ({
            let (t, shown) = s.next(
                JobView { ask: AskOf::Load, purpose: ThenOf::DiscardFind },
                ReplyOf::Loaded(Ok(file)),
            );
            &&& t == s
            &&& shown.purpose is DiscardShown
            &&& shown.ask matches AskOf::ShowCurve { config, source } && {
                &&& config == file
                &&& match source {
                    CurveSource::Profile(i) => file.profiles.len() <= usize::MAX
                        ==> profile_of(file, s.editing) == Some(file.profiles[i as int]),
                    CurveSource::Active => profile_of(file, s.editing) is None,
                }
            }
            &&& s.next(shown, reply) == (s, repainting()) || s.next(shown, reply) == (s, over())
        }),
{
    lemma_named(file.profiles, s.editing);
}

/// The question that is open is the one whose answer the job is waiting for.
pub open spec fn coherent(job: JobView) -> bool {
    match job.purpose {
        ThenOf::ApplyLoad(_) => job.ask is Validate,
        ThenOf::ApplyStore { .. } => job.ask is Load,
        ThenOf::ApplySaved(_) => job.ask is Save,
        ThenOf::ApplyMarked(_) => job.ask is MarkSaved,
        ThenOf::MenuShow => job.ask is Load,
        ThenOf::MenuPick { .. } => job.ask is Menu,
        ThenOf::SwitchStore(_) => job.ask is Load,
        ThenOf::SwitchSaved => job.ask is Save,
        ThenOf::Adopt { .. } => job.ask is Post,
        ThenOf::AdoptShown { .. } => job.ask is ShowActive,
        ThenOf::AdoptRepainted { .. } => job.ask is Repaint,
        ThenOf::ManageName(_) => job.ask is Name,
        ThenOf::ManageConfirm => job.ask is Confirm,
        ThenOf::ManageEdited => job.ask is EditProfiles,
        ThenOf::Imported => job.ask is Import,
        ThenOf::DiscardFind => job.ask is Load,
        ThenOf::DiscardShown => job.ask is ShowCurve,
        ThenOf::FollowStore { .. } => job.ask is Load,
        ThenOf::FollowShown => job.ask is ShowCurve,
        ThenOf::FileSaved => job.ask is Save,
        ThenOf::ModePosted { .. } => job.ask is Post,
        ThenOf::Stop { .. } => job.ask is Repaint || job.ask is Say,
        ThenOf::Nothing => job.ask is Done,
    }
}

/// Whatever the window is asked to do begins with the question that its purpose
/// is waiting for.
pub proof fn law_jobs_begin_with_a_matching_question(
    s: SettingsView,
    mode: u8,
    level: u8,
    action: ProfileAction,
    after: AfterView,
    dirty: bool,
)
    ensures
        coherent(posting(mode, level)),
        coherent(applying(after)),
        coherent(s.managing(action, dirty)),
        coherent(s.importing(dirty)),
        coherent(s.catching_up(dirty)),
{
}

/// A job stays one whose open question its purpose is waiting for, whatever is
/// answered.
pub proof fn law_questions_match_their_purpose(s: SettingsView, job: JobView, reply: ReplyView)
    requires
        coherent(job),
    ensures
        coherent(s.next(job, reply).1),
{
}

/// An answer of the kind that a question asks for.
pub open spec fn answers(ask: AskView, reply: ReplyView) -> bool {
    match ask {
        AskOf::Validate => reply is Validated,
        AskOf::Load => reply is Loaded,
        AskOf::Save(_) => reply is Saved,
        AskOf::MarkSaved => reply is Acknowledged,
        AskOf::Menu(_) => reply is Chosen,
        AskOf::Name { .. } => reply is Named,
        AskOf::Confirm(_) => reply is Answered,
        AskOf::EditProfiles { .. } => reply is ProfilesEdited,
        AskOf::Import => reply is Imported,
        AskOf::Post { .. } => reply is Posted,
        AskOf::ShowCurve { .. } => reply is Shown,
        AskOf::ShowActive => reply is Acknowledged,
        AskOf::Repaint => reply is Acknowledged,
        AskOf::Say(_) => reply is Acknowledged,
        AskOf::Done(_) => false,
    }
}

/// The job draws the window again before it is over.
pub open spec fn will_draw(job: JobView) -> bool {
    ||| job.ask is Repaint && job.purpose is Stop
    ||| match job.purpose {
        ThenOf::ApplyLoad(after) => draws_after(after),
        ThenOf::ApplyStore { after, .. } => draws_after(after),
        ThenOf::ApplySaved(after) => draws_after(after),
        ThenOf::ApplyMarked(after) => draws_after(after),
        ThenOf::FollowStore { .. } => true,
        ThenOf::FollowShown => true,
        _ => false,
    }
}

/// What goes on after a save draws the window again however the save went.
pub open spec fn draws_after(after: AfterView) -> bool {
    after == (AfterView::Finish { repaint: true }) || after is Follow
}

/// A report always ends in the window being drawn again, and so does saving on
/// request, whether or not anything on the way fails.
pub proof fn law_reports_and_saves_always_draw(
    s: SettingsView,
    dirty: bool,
    job: JobView,
    reply: ReplyView,
)
    requires
        coherent(job),
        will_draw(job),
        answers(job.ask, reply),
    ensures
        will_draw(s.catching_up(dirty)),
        will_draw(applying(AfterOf::Finish { repaint: true })),
        job.ask is Repaint || will_draw(s.next(job, reply).1),
{
}

/// How many more answers a job can take before it is over, at the most.
pub open spec fn answers_left(purpose: ThenView) -> nat {
    match purpose {
        ThenOf::Nothing => 0,
        ThenOf::Stop { .. } => 1,
        ThenOf::AdoptRepainted { .. } => 2,
        ThenOf::FollowShown => 2,
        ThenOf::DiscardShown => 2,
        ThenOf::FileSaved => 2,
        ThenOf::ModePosted { .. } => 2,
        ThenOf::AdoptShown { .. } => 3,
        ThenOf::DiscardFind => 3,
        ThenOf::Adopt { .. } => 4,
        ThenOf::ManageEdited => 5,
        ThenOf::Imported => 5,
        ThenOf::SwitchSaved => 5,
        ThenOf::ManageName(_) => 6,
        ThenOf::ManageConfirm => 6,
        ThenOf::SwitchStore(_) => 6,
        ThenOf::ApplyMarked(_) => 7,
        ThenOf::ApplySaved(_) => 8,
        ThenOf::ApplyStore { .. } => 9,
        ThenOf::ApplyLoad(_) => 10,
        ThenOf::MenuPick { .. } => 11,
        ThenOf::FollowStore { .. } => 11,
        ThenOf::MenuShow => 12,
    }
}

/// Every job ends: each answer brings it nearer, and once it is over it stays
/// over.
pub proof fn law_every_job_ends(s: SettingsView, job: JobView, reply: ReplyView)
    ensures
        answers_left(s.next(job, reply).1.purpose) < answers_left(job.purpose) || s.next(
            job,
            reply,
        ).1 == over(),
        job.purpose is Nothing ==> s.next(job, reply) == (s, over()),
{
}

// ------------------------------------------------------------ the menu

/// The management items cannot be mistaken for a profile, nor for one another,
/// nor for no answer.
pub proof fn law_management_items_are_no_profiles()
    ensures
        0 < PROFILE_NEW < PROFILE_MENU_BASE,
        0 < PROFILE_DUPLICATE < PROFILE_MENU_BASE,
        0 < PROFILE_RENAME < PROFILE_MENU_BASE,
        0 < PROFILE_DELETE < PROFILE_MENU_BASE,
        0 < PROFILE_IMPORT < PROFILE_MENU_BASE,
        seq![
            PROFILE_NEW,
            PROFILE_DUPLICATE,
            PROFILE_RENAME,
            PROFILE_DELETE,
            PROFILE_IMPORT,
        ].no_duplicates(),
{
}

/// Choosing a profile's line from the menu means switching to that profile, or
/// nothing when it is the one already selected.
pub proof fn law_a_profile_line_means_its_profile(
    names: Seq<Seq<char>>,
    selected: Seq<char>,
    i: int,
    id: i32,
)
    requires
        0 <= i < names.len(),
        menu_lines(names, selected)[i] matches MenuLine::Item { id: line, .. } && line == id,
        PROFILE_MENU_BASE + i <= usize::MAX,
    ensures
        meaning(id, names, selected) == if names[i] == selected {
            MenuChoice::Nothing
        } else {
            MenuChoice::Switch(i as usize)
        },
        menu_lines(names, selected)[i] matches MenuLine::Item { checked, .. } && checked == (
        names[i] == selected),
{
}

/// Choosing a management line means what the line says, however many profiles
/// there are; deleting is offered only while another profile is left.
pub proof fn law_a_management_line_means_itself(names: Seq<Seq<char>>, selected: Seq<char>)
    ensures
        meaning(PROFILE_NEW as i32, names, selected) == MenuChoice::Manage(ProfileAction::New),
        meaning(PROFILE_DUPLICATE as i32, names, selected) == MenuChoice::Manage(
            ProfileAction::Duplicate,
        ),
        meaning(PROFILE_RENAME as i32, names, selected) == MenuChoice::Manage(
            ProfileAction::Rename,
        ),
        meaning(PROFILE_DELETE as i32, names, selected) == MenuChoice::Manage(
            ProfileAction::Delete,
        ),
        meaning(PROFILE_IMPORT as i32, names, selected) == MenuChoice::Import,
        menu_lines(names, selected).len() == names.len() + 6,
        menu_lines(names, selected).last() matches MenuLine::Item { id, enabled, .. } && id
            == PROFILE_DELETE && enabled == (names.len() > 1),
{
}

// ------------------------------------------------------------ the sensors

proof fn lemma_ascending_holds(list: Seq<usize>, item: usize)
    ensures
        ascending(list).contains(item) == list.contains(item),
{
    broadcast use group_to_multiset_ensures;

    list.lemma_sort_by_ensures(|a: usize, b: usize| a <= b);
    assert(list.to_multiset().count(item) == ascending(list).to_multiset().count(item));
}

proof fn lemma_push_holds(list: Seq<usize>, item: usize, other: usize)
    ensures
        list.push(item).contains(other) == (list.contains(other) || other == item),
{
    let pushed = list.push(item);
    assert(pushed[list.len() as int] == item);
    if list.contains(other) {
        let k = choose|k: int| 0 <= k < list.len() && list[k] == other;
        assert(pushed[k] == other);
    }
}

/// Toggling a sensor leaves every other sensor as it was.
pub proof fn law_toggling_touches_one_sensor(list: Seq<usize>, item: usize, other: usize)
    requires
        other != item,
    ensures
        toggled(list, item).contains(other) == list.contains(other),
{
    lemma_found_from(list, item, 0);
    match found_from(list, item, 0) {
        Some(i) => {
            let rest = list.remove(i);
            if list.contains(other) {
                let k = choose|k: int| 0 <= k < list.len() && list[k] == other;
                assert(rest[if k < i {
                    k
                } else {
                    k - 1
                }] == other);
            }
            if rest.contains(other) {
                let k = choose|k: int| 0 <= k < rest.len() && rest[k] == other;
                assert(list[if k < i {
                    k
                } else {
                    k + 1
                }] == other);
            }
        },
        None => {
            lemma_ascending_holds(list.push(item), other);
            lemma_push_holds(list, item, other);
        },
    }
}

/// Toggling a sensor puts it on the list when it is not there and takes it off
/// when it is there once.
pub proof fn law_toggling_flips_the_sensor(list: Seq<usize>, item: usize)
    requires
        list.no_duplicates(),
    ensures
        toggled(list, item).contains(item) == !list.contains(item),
{
    lemma_found_from(list, item, 0);
    match found_from(list, item, 0) {
        Some(i) => {
            assert(list.contains(item));
            assert forall|k: int| 0 <= k < list.remove(i).len() implies list.remove(i)[k] != item by {
                if k < i {
                    assert(list.remove(i)[k] == list[k]);
                } else {
                    assert(list.remove(i)[k] == list[k + 1]);
                }
            }
        },
        None => {
            lemma_ascending_holds(list.push(item), item);
            lemma_push_holds(list, item, item);
        },
    }
}

/// Toggling a sensor twice comes back to the list it started from, when that
/// was in order and named no sensor twice.
pub proof fn law_toggling_twice_comes_back(list: Seq<usize>, item: usize)
    requires
        forall|i: int, j: int| 0 <= i < j < list.len() ==> list[i] < list[j],
    ensures
        toggled(toggled(list, item), item) == list,
{
    broadcast use group_to_multiset_ensures;

    lemma_found_from(list, item, 0);
    let once = toggled(list, item);
    lemma_found_from(once, item, 0);
    match found_from(list, item, 0) {
        Some(i) => {
            assert forall|k: int| 0 <= k < once.len() implies once[k] != item by {
                if k < i {
                    assert(once[k] == list[k]);
                } else {
                    assert(once[k] == list[k + 1]);
                }
            }
            assert(found_from(once, item, 0) is None);
            assert(once.push(item).to_multiset() =~= list.to_multiset());
            lemma_ascending_is(once.push(item), list);
        },
        None => {
            let leq = |a: usize, b: usize| a <= b;
            list.push(item).lemma_sort_by_ensures(leq);
            lemma_ascending_holds(list.push(item), item);
            lemma_push_holds(list, item, item);
            match found_from(once, item, 0) {
                Some(i) => {
                    let back = once.remove(i);
                    assert(back.to_multiset() =~= list.to_multiset());
                    assert forall|a: int, b: int| 0 <= a <= b < back.len() implies back[a]
                        <= back[b] by {
                        let x = if a < i {
                            a
                        } else {
                            a + 1
                        };
                        let y = if b < i {
                            b
                        } else {
                            b + 1
                        };
                        assert(leq(once[x], once[y]));
                    }
                    lemma_ascending_is(list, back);
                    lemma_ascending_is(list, list);
                },
                None => {},
            }
        },
    }
}

/// What toggling leaves is in order whenever the list was.
pub proof fn law_toggling_keeps_the_order(list: Seq<usize>, item: usize)
    requires
        forall|i: int, j: int| 0 <= i <= j < list.len() ==> list[i] <= list[j],
    ensures
        forall|i: int, j: int|
            0 <= i <= j < toggled(list, item).len() ==> toggled(list, item)[i] <= toggled(
                list,
                item,
            )[j],
{
    lemma_found_from(list, item, 0);
    match found_from(list, item, 0) {
        Some(i) => {},
        None => {
            let leq = |a: usize, b: usize| a <= b;
            list.push(item).lemma_sort_by_ensures(leq);
            let once = toggled(list, item);
            assert forall|a: int, b: int| 0 <= a <= b < once.len() implies once[a] <= once[b] by {
                assert(leq(once[a], once[b]));
            }
        },
    }
}

// ----------------------------------------------------- messages and panels

/// While a dialog is open nothing here is acted on, and the window cannot be
/// closed under it.
pub proof fn law_dialogs_are_not_interrupted(message: u32, present: bool, facts: Facts)
    ensures
        answered(message, true, present, facts) == if message == MESSAGE_CLOSE {
            Response::Nothing
        } else {
            Response::PassOn
        },
{
}

/// While there are no readings none of their rows answers a click: the menu opens
/// only through the picker, no mode or level is asked for, and no sensor is
/// toggled. And a level is stepped only while one is held.
pub proof fn law_rows_that_are_not_drawn_do_not_answer(
    s: SettingsView,
    message: u32,
    facts: Facts,
)
    requires
        facts.fit(s),
    ensures
        s.readout.fault ==> {
            &&& handled(message, facts) is OpenProfileMenu ==> facts.on_picker
            &&& !(handled(message, facts) is CycleMode)
            &&& !(handled(message, facts) is CycleLevel)
            &&& !(handled(message, facts) is ToggleIgnored)
        },
        s.readout.mode_raw != s.protocol.mode_manual ==> !(handled(
            message,
            facts,
        ) is CycleLevel),
{
}

/// Closing the window saves what is not saved, and writes nothing else.
pub proof fn law_closing_saves_first(s: SettingsView, facts: Facts, dirty: bool)
    ensures
        ({
            let job = s.beginning(answered(MESSAGE_CLOSE, false, true, facts), dirty);
            job == if dirty {
                applying(AfterOf::Finish { repaint: false })
            } else {
                over()
            }
        }),
{
}

/// What a message starts is a command, a save, a look at the file, or nothing;
/// and it begins with the question that its purpose is waiting for.
pub proof fn law_messages_start_matching_jobs(s: SettingsView, response: Response, dirty: bool)
    ensures
        coherent(s.beginning(response, dirty)),
        ({
            let ask = s.beginning(response, dirty).ask;
            ask is Post || ask is Validate || ask is Load || ask is Done
        }),
        s.beginning(response, dirty).ask is Post <==> response is CycleMode
            || response is CycleLevel,
{
}

/// A pointer position packed into a message's parameter is the one read out of
/// it, left of and above the window too.
pub proof fn law_pointer_positions_survive_packing(x: i16, y: i16, packed: int)
    requires
        packed == (y as int % 0x1_0000) * 0x1_0000 + x as int % 0x1_0000,
    ensures
        signed_word(packed % 0x1_0000) == x,
        signed_word((packed / 0x1_0000) % 0x1_0000) == y,
{
}

/// The Level row is there exactly while a level is held, so that a click cannot
/// land on a row that is not drawn.
pub proof fn law_the_level_row_is_there_while_a_level_is_held(s: SettingsView)
    ensures
        (exists|i: int|
            0 <= i < reading_rows(s).len() && (#[trigger] reading_rows(s)[i]).role
                == RowRole::Level) <==> s.readout.mode_raw == s.protocol.mode_manual,
{
    let rows = reading_rows(s);
    if s.readout.mode_raw == s.protocol.mode_manual {
        assert(rows[4].role == RowRole::Level);
    }
}

} // verus!
