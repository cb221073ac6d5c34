//! The asynchronous activation of a stream, as a state machine.
//!
//! After a stream has started, the platform still has to load the module that
//! runs the render callback, construct the render node and connect it to the
//! output. Each of those steps can fail, and each takes as long as the
//! platform needs. The library decides what comes next; whoever drives the
//! platform performs the [`pending step`](Bootstrap::pending_step) and hands
//! its outcome to [`advance`](Bootstrap::advance), until no step is pending.

use crate::backend::{StartErrorView, WebAudioStartError};
use crate::OUTPUT_CHANNELS;
use vstd::prelude::*;

verus! {

/// How far the activation of a stream has come.
#[derive(Clone, Copy, Debug, PartialEq, Eq, Structural)]
pub enum BootstrapPhase {
    /// The render module is being loaded.
    LoadingModule,
    /// The module is loaded; the render node is being constructed.
    CreatingNode,
    /// The node exists; it is being connected to the output.
    ConnectingNode,
    /// The node is connected: the platform invokes the render callback.
    Active,
    /// A step has failed. The render callback will never be invoked.
    Failed,
}

/// A step that the platform is asked to perform.
#[derive(Clone, Copy, Debug, PartialEq, Eq, Structural)]
pub enum BootstrapStep {
    /// Load the render module.
    LoadModule,
    /// Construct the render node, with the render host handed to it.
    CreateNode,
    /// Connect the render node to the output.
    ConnectNode,
}

impl BootstrapPhase {
    /// The step that is pending in this phase, if there is one.
    pub open spec fn pending(self) -> Option<BootstrapStep> {
        match self {
            BootstrapPhase::LoadingModule => Some(BootstrapStep::LoadModule),
            BootstrapPhase::CreatingNode => Some(BootstrapStep::CreateNode),
            BootstrapPhase::ConnectingNode => Some(BootstrapStep::ConnectNode),
            BootstrapPhase::Active => None,
            BootstrapPhase::Failed => None,
        }
    }

    /// The phase that follows when the pending step has succeeded or failed.
    /// Where no step is pending the phase stays.
    pub open spec fn after(self, succeeded: bool) -> BootstrapPhase {
        match self {
            BootstrapPhase::LoadingModule => if succeeded {
                BootstrapPhase::CreatingNode
            } else {
                BootstrapPhase::Failed
            },
            BootstrapPhase::CreatingNode => if succeeded {
                BootstrapPhase::ConnectingNode
            } else {
                BootstrapPhase::Failed
            },
            BootstrapPhase::ConnectingNode => if succeeded {
                BootstrapPhase::Active
            } else {
                BootstrapPhase::Failed
            },
            BootstrapPhase::Active => BootstrapPhase::Active,
            BootstrapPhase::Failed => BootstrapPhase::Failed,
        }
    }

    /// The phase after the `outcomes` of that many steps, in order.
    pub open spec fn after_all(self, outcomes: Seq<bool>) -> BootstrapPhase
        decreases outcomes.len(),
    {
        if outcomes.len() == 0 {
            self
        } else {
            self.after_all(outcomes.drop_last()).after(outcomes.last())
        }
    }
}

/// A phase in which no step is pending is final: no outcome changes it.
pub proof fn lemma_settled_phase_stays(phase: BootstrapPhase, outcomes: Seq<bool>)
    requires
        phase.pending() is None,
    ensures
        phase.after_all(outcomes) == phase,
    decreases outcomes.len(),
{
    if outcomes.len() > 0 {
        lemma_settled_phase_stays(phase, outcomes.drop_last());
    }
}

/// The phase that the first three outcomes lead to. It is settled by then:
/// each of the three steps has succeeded, or one has failed.
proof fn lemma_phase_after_first_steps(outcomes: Seq<bool>)
    ensures
        outcomes.len() == 0 ==> BootstrapPhase::LoadingModule.after_all(outcomes)
            == BootstrapPhase::LoadingModule,
        outcomes.len() == 1 ==> BootstrapPhase::LoadingModule.after_all(outcomes)
            == BootstrapPhase::LoadingModule.after(outcomes[0]),
        outcomes.len() == 2 ==> BootstrapPhase::LoadingModule.after_all(outcomes)
            == BootstrapPhase::LoadingModule.after(outcomes[0]).after(outcomes[1]),
        outcomes.len() >= 3 ==> BootstrapPhase::LoadingModule.after_all(outcomes)
            == BootstrapPhase::LoadingModule.after(outcomes[0]).after(outcomes[1]).after(
            outcomes[2],
        ),
    decreases outcomes.len(),
{
    if outcomes.len() > 0 {
        lemma_phase_after_first_steps(outcomes.drop_last());
    }
}

/// A stream becomes active exactly when its first three steps succeed.
pub proof fn lemma_active_after_three_successes(outcomes: Seq<bool>)
    ensures
        BootstrapPhase::LoadingModule.after_all(outcomes) == BootstrapPhase::Active <==> (
        outcomes.len() >= 3 && outcomes[0] && outcomes[1] && outcomes[2]),
{
    lemma_phase_after_first_steps(outcomes);
}

/// The progress of one stream's activation.
#[derive(Debug)]
pub struct Bootstrap {
    phase: BootstrapPhase,
}

impl View for Bootstrap {
    type V = BootstrapPhase;

    closed spec fn view(&self) -> BootstrapPhase {
        self.phase
    }
}

impl Bootstrap {
    /// The activation of a stream that has just started: the render module is
    /// to be loaded.
    pub fn new() -> (bootstrap: Self)
        ensures
            bootstrap@ == BootstrapPhase::LoadingModule,
    {
        Bootstrap { phase: BootstrapPhase::LoadingModule }
    }

    /// How far the activation has come.
    pub fn phase(&self) -> (phase: BootstrapPhase)
        ensures
            phase == self@,
    {
        self.phase
    }

    /// The step that the platform has to perform now, if there is one.
    pub fn pending_step(&self) -> (step: Option<BootstrapStep>)
        ensures
            step == self@.pending(),
    {
        match self.phase {
            BootstrapPhase::LoadingModule => Some(BootstrapStep::LoadModule),
            BootstrapPhase::CreatingNode => Some(BootstrapStep::CreateNode),
            BootstrapPhase::ConnectingNode => Some(BootstrapStep::ConnectNode),
            BootstrapPhase::Active => None,
            BootstrapPhase::Failed => None,
        }
    }

    /// Takes note of the outcome of the pending step: `Ok`, or what the
    /// platform said of the failure. A failure ends the activation and is
    /// handed back as the error to report. An outcome that arrives when no
    /// step is pending changes nothing and reports nothing.
    pub fn advance(&mut self, outcome: Result<(), String>) -> (report: Option<WebAudioStartError>)
        ensures
            final(self)@ == old(self)@.after(outcome is Ok),
            report is Some <==> old(self)@.pending() is Some && outcome is Err,
            report matches Some(error) ==> error@ == StartErrorView::WorkletCreation(
                outcome->Err_0@,
            ),
    {
        let next = match self.phase {
            BootstrapPhase::LoadingModule => BootstrapPhase::CreatingNode,
            BootstrapPhase::CreatingNode => BootstrapPhase::ConnectingNode,
            BootstrapPhase::ConnectingNode => BootstrapPhase::Active,
            BootstrapPhase::Active => {
                return None;
            },
            BootstrapPhase::Failed => {
                return None;
            },
        };
        match outcome {
            Ok(()) => {
                self.phase = next;
                None
            },
            Err(detail) => {
                self.phase = BootstrapPhase::Failed;
                Some(WebAudioStartError::WorkletCreation(detail))
            },
        }
    }
}

/// `text` without the occurrences of `lead` that it starts with.
pub open spec fn without_leading(text: Seq<char>, lead: char) -> Seq<char>
    decreases text.len(),
{
    if text.len() > 0 && text[0] == lead {
        without_leading(text.drop_first(), lead)
    } else {
        text
    }
}

/// `str::trim_start_matches` with a `char` as the pattern: the slice of
/// `text` that is left when every `lead` at its start is removed.
#[verifier::external_body]
fn trim_leading<'a>(text: &'a str, lead: char) -> (rest: &'a str)
    ensures
        rest@ == without_leading(text@, lead),
{
    text.trim_start_matches(lead)
}

/// The path under which the platform loads the render module that the build
/// has placed at `url`: `url` without the dots it starts with, so that a path
/// relative to the page becomes one from the site's root.
pub fn module_specifier<'a>(url: &'a str) -> (path: &'a str)
    ensures
        path@ == without_leading(url@, '.'),
{
    trim_leading(url, '.')
}

/// The channel counts of the render node's outputs: one output, with the
/// stream's output channels.
pub fn output_channel_counts() -> (counts: Vec<u32>)
    ensures
        counts@ == seq![OUTPUT_CHANNELS as u32],
{
    let mut counts: Vec<u32> = Vec::new();
    counts.push(OUTPUT_CHANNELS as u32);
    counts
}

} // verus!
