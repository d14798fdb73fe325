use vstd::prelude::*;
use crate::block_average::{BlockAverage, block_step};
use crate::sample::BlockSample;
use crate::ring_buffer::RingBuffer;

verus! {

/// Time the button is ignored after a press, in milliseconds.
pub const DEBOUNCE_TIMEOUT_MS: u64 = 300;

/// Time a screen stays on without a button press, in milliseconds.
pub const SCREEN_TIMEOUT_MS: u64 = 5000;

/// Period of the sensor timer, in milliseconds.
pub const SENSOR_PERIOD_MS: u64 = 5000;

/// Number of CO2 readings averaged into one history entry.
pub const CO2_BLOCK_SIZE: usize = 12;

/// Number of averaged CO2 entries the history keeps.
pub const CO2_HISTORY_LEN: usize = 120;

/// The screen state of the monitor.
#[derive(Clone, Copy, Debug, PartialEq, Eq, Structural)]
pub enum AppState {
    /// No measurement yet; the screen shows the start-up message.
    Initializing,
    /// The screen is off.
    Idle,
    /// The measurement screen was just switched on; presses are debounced.
    GeneralViewDebouncing,
    /// The measurement screen is on.
    GeneralView,
    /// The history screen was just switched on; presses are debounced.
    HistoryViewDebouncing,
    /// The history screen is on.
    HistoryView,
}

/// What to do with the display.
#[derive(Clone, Copy, Debug, PartialEq, Eq, Structural)]
pub enum ScreenCommand {
    /// Leave the display as it is.
    Keep,
    /// Switch the display on, showing the latest measurement.
    ShowMeasurement,
    /// Switch the display on, showing the CO2 history.
    ShowHistory,
    /// Switch the display off.
    TurnOff,
}

/// The answer to an event: the next state, the display command, and the delay,
/// in milliseconds, with which to (re)start the one-shot application timer.
#[derive(Clone, Copy, Debug, PartialEq, Eq, Structural)]
pub struct Reaction {
    pub state: AppState,
    pub screen: ScreenCommand,
    pub timer_ms: Option<u64>,
}

/// How the monitor answers a button press in `state`.
pub open spec fn button_reaction(state: AppState, has_measurement: bool) -> Reaction {
    match state {
        AppState::Initializing => Reaction {
            state: AppState::Initializing,
            screen: ScreenCommand::Keep,
            timer_ms: None,
        },
        AppState::Idle | AppState::HistoryView => Reaction {
            state: AppState::GeneralViewDebouncing,
            screen: if has_measurement {
                ScreenCommand::ShowMeasurement
            } else {
                ScreenCommand::Keep
            },
            timer_ms: Some(300),
        },
        AppState::GeneralView => Reaction {
            state: AppState::HistoryViewDebouncing,
            screen: ScreenCommand::ShowHistory,
            timer_ms: Some(300),
        },
        AppState::GeneralViewDebouncing | AppState::HistoryViewDebouncing => Reaction {
            state,
            screen: ScreenCommand::Keep,
            timer_ms: Some(300),
        },
    }
}

/// How the monitor answers the expiry of the application timer in `state`.
pub open spec fn timer_reaction(state: AppState) -> Reaction {
    match state {
        AppState::Initializing | AppState::Idle => Reaction {
            state,
            screen: ScreenCommand::Keep,
            timer_ms: None,
        },
        AppState::GeneralViewDebouncing => Reaction {
            state: AppState::GeneralView,
            screen: ScreenCommand::Keep,
            timer_ms: Some(5000),
        },
        AppState::HistoryViewDebouncing => Reaction {
            state: AppState::HistoryView,
            screen: ScreenCommand::Keep,
            timer_ms: Some(5000),
        },
        AppState::GeneralView | AppState::HistoryView => Reaction {
            state: AppState::Idle,
            screen: ScreenCommand::TurnOff,
            timer_ms: None,
        },
    }
}

/// How the monitor answers a new measurement in `state`: the first one ends the
/// start-up phase and switches the display off; later ones change nothing.
pub open spec fn measurement_reaction(state: AppState, had_measurement: bool) -> Reaction {
    if had_measurement {
        Reaction { state, screen: ScreenCommand::Keep, timer_ms: None }
    } else {
        Reaction { state: AppState::Idle, screen: ScreenCommand::TurnOff, timer_ms: None }
    }
}

/// Whether the screen is on (or being switched on) in `state`.
pub open spec fn screen_active(state: AppState) -> bool {
    match state {
        AppState::GeneralViewDebouncing | AppState::GeneralView | AppState::HistoryViewDebouncing
        | AppState::HistoryView => true,
        AppState::Initializing | AppState::Idle => false,
    }
}

/// Start-up law: button presses and timer expiries never end the start-up phase,
/// no event leads back into it, and the first measurement ends it.
pub proof fn law_start_up(state: AppState, has_measurement: bool)
    ensures
        button_reaction(AppState::Initializing, has_measurement).state == AppState::Initializing,
        timer_reaction(AppState::Initializing).state == AppState::Initializing,
        measurement_reaction(AppState::Initializing, false).state == AppState::Idle,
        state != AppState::Initializing ==> {
            &&& button_reaction(state, has_measurement).state != AppState::Initializing
            &&& timer_reaction(state).state != AppState::Initializing
            &&& measurement_reaction(state, has_measurement).state != AppState::Initializing
        },
{
}

/// Timer law: every button press or timer expiry that leaves a screen on (re)arms
/// the application timer, with the debounce timeout when it leaves a debouncing
/// state and the screen timeout when it enters a view from its debouncing state;
/// one that leaves the screen off arms nothing.
pub proof fn law_timer_armed(state: AppState, has_measurement: bool)
    ensures
        screen_active(button_reaction(state, has_measurement).state) <==> button_reaction(
            state,
            has_measurement,
        ).timer_ms is Some,
        screen_active(timer_reaction(state).state) <==> timer_reaction(state).timer_ms is Some,
        button_reaction(state, has_measurement).timer_ms is Some ==> button_reaction(
            state,
            has_measurement,
        ).timer_ms == Some(DEBOUNCE_TIMEOUT_MS),
        timer_reaction(state).timer_ms is Some ==> timer_reaction(state).timer_ms == Some(
            SCREEN_TIMEOUT_MS,
        ),
{
}

/// Display law: the display is switched on only when a debouncing state is
/// entered, and switched off only when the monitor becomes idle.
pub proof fn law_display_commands(state: AppState, has_measurement: bool)
    ensures
        ({
            let r = button_reaction(state, has_measurement);
            &&& r.screen == ScreenCommand::ShowMeasurement ==> r.state
                == AppState::GeneralViewDebouncing
            &&& r.screen == ScreenCommand::ShowHistory ==> r.state == AppState::HistoryViewDebouncing
            &&& r.screen != ScreenCommand::TurnOff
        }),
        ({
            let r = timer_reaction(state);
            &&& r.screen == ScreenCommand::TurnOff <==> screen_active(state) && r.state
                == AppState::Idle
            &&& r.screen == ScreenCommand::TurnOff || r.screen == ScreenCommand::Keep
        }),
        ({
            let r = measurement_reaction(state, has_measurement);
            &&& r.screen == ScreenCommand::TurnOff ==> r.state == AppState::Idle
            &&& r.screen == ScreenCommand::TurnOff || r.screen == ScreenCommand::Keep
        }),
{
}

/// Measurement law: once a measurement has been taken, a new one leaves every
/// state as it is, with no display command and no timer; the first one, whatever
/// the state, makes the monitor idle and switches the display off.
pub proof fn law_measurement_keeps_state(state: AppState)
    ensures
        measurement_reaction(state, true) == (Reaction {
            state,
            screen: ScreenCommand::Keep,
            timer_ms: None,
        }),
        measurement_reaction(state, false) == (Reaction {
            state: AppState::Idle,
            screen: ScreenCommand::TurnOff,
            timer_ms: None,
        }),
{
}

/// Screen cycle law: a press from the idle or history screen opens the measurement
/// screen (debounced), a press on the measurement screen opens the history screen
/// (debounced); the timer ends debouncing into the view and switches a view off
/// into idle.
pub proof fn law_screen_cycle(has_measurement: bool)
    ensures
        button_reaction(AppState::Idle, has_measurement) == (Reaction {
            state: AppState::GeneralViewDebouncing,
            screen: if has_measurement {
                ScreenCommand::ShowMeasurement
            } else {
                ScreenCommand::Keep
            },
            timer_ms: Some(300),
        }),
        button_reaction(AppState::HistoryView, has_measurement) == button_reaction(
            AppState::Idle,
            has_measurement,
        ),
        button_reaction(AppState::GeneralView, has_measurement) == (Reaction {
            state: AppState::HistoryViewDebouncing,
            screen: ScreenCommand::ShowHistory,
            timer_ms: Some(300),
        }),
        has_measurement ==> button_reaction(AppState::Idle, has_measurement).screen
            == ScreenCommand::ShowMeasurement,
        !has_measurement ==> button_reaction(AppState::Idle, has_measurement).screen
            == ScreenCommand::Keep,
        timer_reaction(AppState::GeneralViewDebouncing) == (Reaction {
            state: AppState::GeneralView,
            screen: ScreenCommand::Keep,
            timer_ms: Some(5000),
        }),
        timer_reaction(AppState::HistoryViewDebouncing) == (Reaction {
            state: AppState::HistoryView,
            screen: ScreenCommand::Keep,
            timer_ms: Some(5000),
        }),
        timer_reaction(AppState::GeneralView) == (Reaction {
            state: AppState::Idle,
            screen: ScreenCommand::TurnOff,
            timer_ms: None,
        }),
        timer_reaction(AppState::HistoryView) == (Reaction {
            state: AppState::Idle,
            screen: ScreenCommand::TurnOff,
            timer_ms: None,
        }),
        timer_reaction(AppState::Idle) == (Reaction {
            state: AppState::Idle,
            screen: ScreenCommand::Keep,
            timer_ms: None,
        }),
{
}

/// Debounce law: a press while debouncing keeps the state and the display and
/// only restarts the debounce timeout.
pub proof fn law_debounce(state: AppState, has_measurement: bool)
    requires
        state == AppState::GeneralViewDebouncing || state == AppState::HistoryViewDebouncing,
    ensures
        button_reaction(state, has_measurement) == (Reaction {
            state,
            screen: ScreenCommand::Keep,
            timer_ms: Some(DEBOUNCE_TIMEOUT_MS),
        }),
{
}

/// Answers a button press in `state`; `has_measurement` tells whether a
/// measurement is available to show.
pub fn on_button(state: AppState, has_measurement: bool) -> (r: Reaction)
    ensures
        r == button_reaction(state, has_measurement),
{
    match state {
        AppState::Initializing => Reaction {
            state: AppState::Initializing,
            screen: ScreenCommand::Keep,
            timer_ms: None,
        },
        AppState::Idle | AppState::HistoryView => {
            let screen = if has_measurement {
                ScreenCommand::ShowMeasurement
            } else {
                ScreenCommand::Keep
            };
            Reaction {
                state: AppState::GeneralViewDebouncing,
                screen,
                timer_ms: Some(DEBOUNCE_TIMEOUT_MS),
            }
        },
        AppState::GeneralView => Reaction {
            state: AppState::HistoryViewDebouncing,
            screen: ScreenCommand::ShowHistory,
            timer_ms: Some(DEBOUNCE_TIMEOUT_MS),
        },
        AppState::GeneralViewDebouncing | AppState::HistoryViewDebouncing => Reaction {
            state,
            screen: ScreenCommand::Keep,
            timer_ms: Some(DEBOUNCE_TIMEOUT_MS),
        },
    }
}

/// Answers the expiry of the application timer in `state`.
pub fn on_app_timer(state: AppState) -> (r: Reaction)
    ensures
        r == timer_reaction(state),
{
    match state {
        AppState::Initializing | AppState::Idle => Reaction {
            state,
            screen: ScreenCommand::Keep,
            timer_ms: None,
        },
        AppState::GeneralViewDebouncing => Reaction {
            state: AppState::GeneralView,
            screen: ScreenCommand::Keep,
            timer_ms: Some(SCREEN_TIMEOUT_MS),
        },
        AppState::HistoryViewDebouncing => Reaction {
            state: AppState::HistoryView,
            screen: ScreenCommand::Keep,
            timer_ms: Some(SCREEN_TIMEOUT_MS),
        },
        AppState::GeneralView | AppState::HistoryView => Reaction {
            state: AppState::Idle,
            screen: ScreenCommand::TurnOff,
            timer_ms: None,
        },
    }
}

/// Answers a new measurement in `state`; `had_measurement` tells whether one
/// had been taken before.
pub fn on_measurement(state: AppState, had_measurement: bool) -> (r: Reaction)
    ensures
        r == measurement_reaction(state, had_measurement),
{
    if had_measurement {
        Reaction { state, screen: ScreenCommand::Keep, timer_ms: None }
    } else {
        Reaction { state: AppState::Idle, screen: ScreenCommand::TurnOff, timer_ms: None }
    }
}

/// The monitor's state between events: the screen state and the CO2 pipeline
/// (averager of blocks of 12 readings and history of the last 120 averages).
/// A measurement has been taken exactly when the monitor is no longer starting up.
pub struct Monitor {
    state: AppState,
    co2_average: BlockAverage<u16>,
    co2_history: RingBuffer<u16, 120>,
}

impl Monitor {
    /// The averager works on blocks of 12 readings.
    #[verifier::type_invariant]
    spec fn averages_blocks_of_twelve(&self) -> bool {
        &&& self.co2_average.block_len() == 12
        &&& self.co2_average.divisor() == 12
    }

    /// The screen state.
    pub closed spec fn state_spec(&self) -> AppState {
        self.state
    }

    /// Whether a measurement has been taken: the monitor has left the start-up phase.
    pub open spec fn measured(&self) -> bool {
        self.state_spec() != AppState::Initializing
    }

    /// The averager of incoming CO2 readings.
    pub closed spec fn averager(&self) -> BlockAverage<u16> {
        self.co2_average
    }

    /// The history of averaged CO2 readings, oldest first.
    pub closed spec fn history_spec(&self) -> Seq<u16> {
        self.co2_history@
    }

    /// A monitor that is starting up, with an empty block of readings and a
    /// history of 120 zero entries.
    pub fn new() -> (m: Self)
        ensures
            m.state_spec() == AppState::Initializing,
            m.averager().block_len() == 12,
            m.averager().divisor() == 12,
            m.averager().pending_sum() == 0,
            m.averager().pending_count() == 0,
            m.history_spec() == Seq::new(120, |i: int| 0u16),
    {
        let co2_average = BlockAverage::<u16>::new(CO2_BLOCK_SIZE);
        let co2_history = RingBuffer::<u16, 120>::new();
        proof {
            <u16 as BlockSample>::count_value_of_small(12);
            assert(co2_history@ =~= Seq::new(120, |i: int| 0u16));
        }
        Monitor { state: AppState::Initializing, co2_average, co2_history }
    }

    /// The screen state.
    pub fn state(&self) -> (s: AppState)
        ensures
            s == self.state_spec(),
    {
        self.state
    }

    /// Whether a measurement has been taken.
    pub fn has_measurement(&self) -> (b: bool)
        ensures
            b == self.measured(),
    {
        match self.state {
            AppState::Initializing => false,
            _ => true,
        }
    }

    /// The history of averaged CO2 readings.
    pub fn history(&self) -> (h: &RingBuffer<u16, 120>)
        ensures
            h@ == self.history_spec(),
    {
        &self.co2_history
    }

    /// Handles a button press: moves to the next screen state and says what to
    /// show and how to restart the application timer.
    pub fn press_button(&mut self) -> (r: Reaction)
        ensures
            r == button_reaction(old(self).state_spec(), old(self).measured()),
            final(self).averager().block_len() == 12,
            final(self).averager().divisor() == 12,
            final(self).state_spec() == r.state,
            final(self).averager() == old(self).averager(),
            final(self).history_spec() == old(self).history_spec(),
    {
        proof { use_type_invariant(&*self); }
        let r = on_button(self.state, self.has_measurement());
        self.state = r.state;
        r
    }

    /// Handles the expiry of the application timer.
    pub fn app_timer_expired(&mut self) -> (r: Reaction)
        ensures
            r == timer_reaction(old(self).state_spec()),
            final(self).averager().block_len() == 12,
            final(self).averager().divisor() == 12,
            final(self).state_spec() == r.state,
            final(self).averager() == old(self).averager(),
            final(self).history_spec() == old(self).history_spec(),
    {
        proof { use_type_invariant(&*self); }
        let r = on_app_timer(self.state);
        self.state = r.state;
        r
    }

    /// Whether a measurement with this CO2 reading can be recorded: adding it to the
    /// current block of readings does not overflow a `u16`.
    pub fn can_record(&self, co2: u16) -> (b: bool)
        ensures
            b == self.averager().push_allowed(co2),
            self.averager().block_len() == 12,
            self.averager().divisor() == 12,
    {
        proof { use_type_invariant(self); }
        self.co2_average.can_push(co2)
    }

    /// Handles a new measurement with CO2 reading `co2` (ppm): the first one ends
    /// the start-up phase; the reading joins the current block, and when it
    /// completes the block the block's average is appended to the history.
    pub fn record_measurement(&mut self, co2: u16) -> (r: Reaction)
        requires
            old(self).averager().push_allowed(co2),
        ensures
            r == measurement_reaction(old(self).state_spec(), old(self).measured()),
            final(self).averager().block_len() == 12,
            final(self).averager().divisor() == 12,
            final(self).state_spec() == r.state,
            final(self).measured(),
            ({
                let (sum, count, done) = block_step(
                    12,
                    old(self).averager().pending_sum(),
                    old(self).averager().pending_count(),
                    co2 as int,
                );
                &&& final(self).averager().pending_sum() == sum
                &&& final(self).averager().pending_count() == count
                &&& final(self).history_spec() == match done {
                    Some(block_sum) => old(self).history_spec().drop_first().push(
                        (block_sum / 12) as u16,
                    ),
                    None => old(self).history_spec(),
                }
            }),
    {
        proof { use_type_invariant(&*self); }
        let r = on_measurement(self.state, self.has_measurement());
        self.state = r.state;
        let mut average = BlockAverage::<u16>::new(CO2_BLOCK_SIZE);
        proof { <u16 as BlockSample>::count_value_of_small(12); }
        std::mem::swap(&mut average, &mut self.co2_average);
        let out = average.push(co2);
        self.co2_average = average;
        match out {
            Some(avg) => {
                let mut history = RingBuffer::<u16, 120>::new();
                std::mem::swap(&mut history, &mut self.co2_history);
                history.push(avg);
                self.co2_history = history;
            },
            None => {},
        }
        r
    }
}

} // verus!
