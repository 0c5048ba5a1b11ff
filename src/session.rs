use vstd::prelude::*;
use crate::answer::{confirms, is_yes, trim_end_of};
use crate::outcome::{converted_names, successes, views, Outcome};
use crate::platform::{destination, other, Platform};

verus! {

/// Where a run stands. A run checks for the detection file, detects the
/// source platform from it, asks for confirmation unless told not to, then
/// converts every discovered file and reports; nothing is discovered or
/// converted before confirmation.
#[derive(Clone, Copy, Debug, PartialEq, Eq, Structural)]
pub enum Stage {
    FindingDetectionFile,
    Detecting,
    Confirming { from: Platform, to: Platform },
    Converting { from: Platform, to: Platform },
    Finished,
}

/// Why a run ended before converting anything.
#[derive(Clone, Copy, Debug, PartialEq, Eq, Structural)]
pub enum Halt {
    /// The directory holds no detection file: nothing to do, not an error.
    NoDetectionFile,
    /// The user did not confirm: a normal end, not an error.
    Declined,
    /// The detection file could not be opened or classified: an error.
    DetectionFailed,
}

/// What the caller saw when it carried out the last action.
#[derive(Debug)]
pub enum Event {
    /// Whether the detection file exists in the save directory.
    DetectionFile { present: bool },
    /// The detection file was read and belongs to `platform`.
    Detected { platform: Platform },
    /// The detection file could not be opened or classified.
    DetectionFailed,
    /// The line the user typed at the confirmation prompt.
    Answered { line: String },
    /// Every dispatched conversion has settled, with these outcomes.
    Settled { outcomes: Vec<Outcome> },
}

/// What the caller is to do next.
#[derive(Debug)]
pub enum Action {
    /// Look for the detection file in the save directory.
    CheckDetectionFile,
    /// Open the detection file read-only and classify it.
    DetectPlatform,
    /// Show the conversion about to happen and read one line of input.
    Prompt { from: Platform, to: Platform },
    /// Discover the save files and convert each of them from `from` to `to`,
    /// all at once and independently, then hand back their outcomes.
    Convert { from: Platform, to: Platform },
    /// Report each converted file by its identifier, then that the batch is
    /// complete; the run has ended successfully.
    Report { converted: Vec<String> },
    /// The run has ended without converting anything.
    Stop { reason: Halt },
    /// The event does not belong to the current stage and was ignored.
    Wait,
}

/// The decisions of one run of the pipeline.
#[derive(Debug)]
pub struct Session {
    /// Whether the confirmation prompt is skipped.
    pub auto_confirm: bool,
    pub stage: Stage,
}

/// The stage that follows `s` on event `e`.
pub open spec fn next_stage(auto: bool, s: Stage, e: Event) -> Stage {
    match (s, e) {
        (Stage::FindingDetectionFile, Event::DetectionFile { present }) => {
            if present {
                Stage::Detecting
            } else {
                Stage::Finished
            }
        },
        (Stage::Detecting, Event::Detected { platform }) => {
            if auto {
                Stage::Converting { from: platform, to: other(platform) }
            } else {
                Stage::Confirming { from: platform, to: other(platform) }
            }
        },
        (Stage::Detecting, Event::DetectionFailed) => Stage::Finished,
        (Stage::Confirming { from, to }, Event::Answered { line }) => {
            if is_yes(trim_end_of(line@)) {
                Stage::Converting { from, to }
            } else {
                Stage::Finished
            }
        },
        (Stage::Converting { .. }, Event::Settled { .. }) => Stage::Finished,
        _ => s,
    }
}

/// Whether event `e` in stage `s` starts the discovery and conversion of files.
pub open spec fn converts(auto: bool, s: Stage, e: Event) -> bool {
    match (s, e) {
        (Stage::Detecting, Event::Detected { .. }) => auto,
        (Stage::Confirming { .. }, Event::Answered { line }) => is_yes(trim_end_of(line@)),
        _ => false,
    }
}

/// Whether `a` is the action that answers event `e` in stage `s`.
pub open spec fn is_reply(auto: bool, s: Stage, e: Event, a: Action) -> bool {
    match (s, e) {
        (Stage::FindingDetectionFile, Event::DetectionFile { present }) => {
            if present {
                a is DetectPlatform
            } else {
                a == Action::Stop { reason: Halt::NoDetectionFile }
            }
        },
        (Stage::Detecting, Event::Detected { platform }) => {
            if auto {
                a == Action::Convert { from: platform, to: other(platform) }
            } else {
                a == Action::Prompt { from: platform, to: other(platform) }
            }
        },
        (Stage::Detecting, Event::DetectionFailed) => a == Action::Stop {
            reason: Halt::DetectionFailed,
        },
        (Stage::Confirming { from, to }, Event::Answered { line }) => {
            if is_yes(trim_end_of(line@)) {
                a == Action::Convert { from, to }
            } else {
                a == Action::Stop { reason: Halt::Declined }
            }
        },
        (Stage::Converting { .. }, Event::Settled { outcomes }) => {
            a matches Action::Report { converted } && views(converted@) == successes(outcomes@)
        },
        _ => a is Wait,
    }
}

/// Whether a run in stage `s` that sees the events `es` starts converting.
pub open spec fn work_started(auto: bool, s: Stage, es: Seq<Event>) -> bool
    decreases es.len(),
{
    if es.len() == 0 {
        false
    } else {
        converts(auto, s, es[0]) || work_started(auto, next_stage(auto, s, es[0]), es.drop_first())
    }
}

/// A finished run stays finished: whatever events follow, it converts nothing.
pub proof fn finished_run_converts_nothing(auto: bool, es: Seq<Event>)
    ensures
        !work_started(auto, Stage::Finished, es),
    decreases es.len(),
{
    if es.len() > 0 {
        finished_run_converts_nothing(auto, es.drop_first());
    }
}

/// Where the detection file is missing, the run ends at once, successfully,
/// and discovers and converts nothing, whatever events follow.
pub proof fn missing_detection_file_converts_nothing(auto: bool, es: Seq<Event>)
    ensures
        next_stage(auto, Stage::FindingDetectionFile, Event::DetectionFile { present: false })
            == Stage::Finished,
        is_reply(
            auto,
            Stage::FindingDetectionFile,
            Event::DetectionFile { present: false },
            Action::Stop { reason: Halt::NoDetectionFile },
        ),
        !work_started(
            auto,
            Stage::FindingDetectionFile,
            seq![Event::DetectionFile { present: false }] + es,
        ),
{
    let all = seq![Event::DetectionFile { present: false }] + es;
    assert(all[0] == Event::DetectionFile { present: false });
    assert(all.drop_first() =~= es);
    finished_run_converts_nothing(auto, es);
}

/// Without auto-confirmation, conversion starts only on an answer that
/// confirms it.
pub proof fn only_a_confirming_answer_converts(s: Stage, e: Event)
    ensures
        converts(false, s, e) ==> (e matches Event::Answered { line } && is_yes(
            trim_end_of(line@),
        )),
{
}

/// Without auto-confirmation, a run whose answer does not confirm ends
/// successfully after detection and converts nothing, whatever events follow.
pub proof fn declined_answer_converts_nothing(p: Platform, line: String, es: Seq<Event>)
    requires
        !is_yes(trim_end_of(line@)),
    ensures
        next_stage(
            false,
            next_stage(false, Stage::Detecting, Event::Detected { platform: p }),
            Event::Answered { line },
        ) == Stage::Finished,
        !work_started(
            false,
            Stage::Detecting,
            seq![Event::Detected { platform: p }, Event::Answered { line }] + es,
        ),
{
    let all = seq![Event::Detected { platform: p }, Event::Answered { line }] + es;
    assert(all[0] == Event::Detected { platform: p });
    assert(all.drop_first()[0] == Event::Answered { line });
    assert(all.drop_first().drop_first() =~= es);
    finished_run_converts_nothing(false, es);
    let confirming = next_stage(false, Stage::Detecting, all[0]);
    assert(!work_started(false, confirming, all.drop_first()));
}

impl Session {
    /// A run that has not started, and the first thing it does.
    pub fn new(auto_confirm: bool) -> (r: (Session, Action))
        ensures
            r.0.auto_confirm == auto_confirm,
            r.0.stage == Stage::FindingDetectionFile,
            r.1 is CheckDetectionFile,
    {
        (Session { auto_confirm, stage: Stage::FindingDetectionFile }, Action::CheckDetectionFile)
    }

    /// Takes the run one step on event `e` and says what to do next.
    pub fn step(&mut self, e: Event) -> (a: Action)
        ensures
            final(self).auto_confirm == old(self).auto_confirm,
            final(self).stage == next_stage(old(self).auto_confirm, old(self).stage, e),
            is_reply(old(self).auto_confirm, old(self).stage, e, a),
            a is Convert <==> converts(old(self).auto_confirm, old(self).stage, e),
    {
        match (self.stage, e) {
            (Stage::FindingDetectionFile, Event::DetectionFile { present }) => {
                if present {
                    self.stage = Stage::Detecting;
                    Action::DetectPlatform
                } else {
                    self.stage = Stage::Finished;
                    Action::Stop { reason: Halt::NoDetectionFile }
                }
            },
            (Stage::Detecting, Event::Detected { platform }) => {
                let to = destination(platform);
                if self.auto_confirm {
                    self.stage = Stage::Converting { from: platform, to };
                    Action::Convert { from: platform, to }
                } else {
                    self.stage = Stage::Confirming { from: platform, to };
                    Action::Prompt { from: platform, to }
                }
            },
            (Stage::Detecting, Event::DetectionFailed) => {
                self.stage = Stage::Finished;
                Action::Stop { reason: Halt::DetectionFailed }
            },
            (Stage::Confirming { from, to }, Event::Answered { line }) => {
                if confirms(line.as_str()) {
                    self.stage = Stage::Converting { from, to };
                    Action::Convert { from, to }
                } else {
                    self.stage = Stage::Finished;
                    Action::Stop { reason: Halt::Declined }
                }
            },
            (Stage::Converting { .. }, Event::Settled { outcomes }) => {
                self.stage = Stage::Finished;
                Action::Report { converted: converted_names(&outcomes) }
            },
            _ => Action::Wait,
        }
    }
}

} // verus!
