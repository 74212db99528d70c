use vstd::prelude::*;

use crate::message::Message;
use crate::network::Network;
use crate::step::{Context, DaemonConfig, DefineBitcoind, DefineDescriptor, Final, Step, Welcome};

verus! {

/// What the installer asks its caller to do after an event.
#[derive(Clone, Copy, Debug, PartialEq, Eq, Structural)]
pub enum Command {
    /// Nothing to do.
    Idle,
    /// Run the finalization on a copy of the context and of the daemon configuration.
    Install,
}

/// The wizard: an ordered list of steps, the position in it, and what the steps
/// have gathered.
pub struct Installer {
    should_exit: bool,
    current: usize,
    steps: Vec<Step>,
    /// Data passed through each step.
    context: Context,
    config: DaemonConfig,
}

/// The state of an installer, as its contracts speak of it.
pub struct InstallerModel {
    pub should_exit: bool,
    pub current: nat,
    pub steps: Seq<Step>,
    pub context: Context,
    pub config: DaemonConfig,
}

/// At least two steps, and the position names one of them.
pub open spec fn well_formed(s: InstallerModel) -> bool {
    2 <= s.steps.len() && s.current < s.steps.len()
}

/// The position after one move forward: the last step is never passed.
pub open spec fn advance_index(len: nat, i: nat) -> nat {
    if i + 1 < len {
        i + 1
    } else {
        i
    }
}

/// The position after one move back: the first step is never passed.
pub open spec fn retreat_index(i: nat) -> nat {
    if i > 0 {
        (i - 1) as nat
    } else {
        0
    }
}

/// The first position from `i` on whose step is not bypassed under `ctx`, or the
/// last position.
pub open spec fn skip_target(steps: Seq<Step>, ctx: Context, i: nat) -> nat
    decreases steps.len() - i,
{
    if i + 1 < steps.len() && steps[i as int].skipped(ctx) {
        skip_target(steps, ctx, i + 1)
    } else {
        i
    }
}

/// The state after the current step's input was committed: move forward, pass
/// over the bypassed steps, and let the step reached take up the context.
pub open spec fn after_commit(s: InstallerModel) -> InstallerModel {
    let step = s.steps[s.current as int];
    let ctx = step.committed_context(s.context);
    let cfg = step.committed_config(s.config);
    let i = skip_target(s.steps, ctx, advance_index(s.steps.len(), s.current));
    InstallerModel {
        current: i,
        steps: s.steps.update(i as int, s.steps[i as int].loaded(ctx)),
        context: ctx,
        config: cfg,
        ..s
    }
}

/// The state after the installer handled `m` in state `s`.
pub open spec fn stepped(s: InstallerModel, m: Message) -> InstallerModel {
    match m {
        Message::Next => if s.steps[s.current as int].is_complete() {
            after_commit(s)
        } else {
            s
        },
        Message::Previous => InstallerModel { current: retreat_index(s.current), ..s },
        Message::CloseRequested => InstallerModel { should_exit: true, ..s },
        _ => InstallerModel {
            steps: s.steps.update(s.current as int, s.steps[s.current as int].updated(m)),
            ..s
        },
    }
}

/// Passing over bypassed steps always ends: from any position `i`, it stops at
/// a position at or after `i` whose step is not bypassed, or at the last step,
/// and every step passed over on the way is bypassed.
pub proof fn lemma_skip_converges(steps: Seq<Step>, ctx: Context, i: nat)
    requires
        i < steps.len(),
    ensures
        i <= skip_target(steps, ctx, i) < steps.len(),
        skip_target(steps, ctx, i) + 1 == steps.len()
            || !steps[skip_target(steps, ctx, i) as int].skipped(ctx),
        forall|j: int| i <= j < skip_target(steps, ctx, i) ==> #[trigger] steps[j].skipped(ctx),
    decreases steps.len() - i,
{
    if i + 1 < steps.len() && steps[i as int].skipped(ctx) {
        lemma_skip_converges(steps, ctx, i + 1);
    }
}

/// Whatever event comes, the position keeps naming a step; moving back from
/// the first step and moving forward from the last one leave it where it is.
pub proof fn lemma_navigation_in_range(s: InstallerModel, m: Message)
    requires
        well_formed(s),
    ensures
        well_formed(stepped(s, m)),
        stepped(s, m).steps.len() == s.steps.len(),
        s.current == 0 ==> stepped(s, Message::Previous).current == 0,
        s.current + 1 == s.steps.len() ==> advance_index(s.steps.len(), s.current) == s.current,
{
    let step = s.steps[s.current as int];
    let ctx = step.committed_context(s.context);
    lemma_skip_converges(s.steps, ctx, advance_index(s.steps.len(), s.current));
}

/// An advance whose commit is refused changes nothing at all.
pub proof fn lemma_refused_commit_changes_nothing(s: InstallerModel)
    requires
        well_formed(s),
        !s.steps[s.current as int].is_complete(),
    ensures
        stepped(s, Message::Next) == s,
{
}

/// On an accepted advance, the steps passed over are bypassed and left exactly
/// as they were: only the step reached takes up the context.
pub proof fn lemma_bypassed_steps_untouched(s: InstallerModel)
    requires
        well_formed(s),
        s.steps[s.current as int].is_complete(),
    ensures
        ({
            let t = stepped(s, Message::Next);
            let start = advance_index(s.steps.len(), s.current);
            &&& start <= t.current
            &&& forall|j: int| start <= j < t.current ==> #[trigger] s.steps[j].skipped(t.context)
            &&& forall|j: int| 0 <= j < s.steps.len() && j != t.current ==> #[trigger] t.steps[j] == s.steps[j]
            &&& t.steps[t.current as int] == s.steps[t.current as int].loaded(t.context)
        }),
{
    let step = s.steps[s.current as int];
    let ctx = step.committed_context(s.context);
    lemma_skip_converges(s.steps, ctx, advance_index(s.steps.len(), s.current));
}

/// The state reached by handling `ms` in order, starting from `s`.
pub open spec fn replay(s: InstallerModel, ms: Seq<Message>) -> InstallerModel
    decreases ms.len(),
{
    if ms.len() == 0 {
        s
    } else {
        replay(stepped(s, ms[0]), ms.drop_first())
    }
}

/// Handling the same events from two states that agree on their steps,
/// position, context and configuration yields the same context and
/// configuration: what the wizard gathers depends on the inputs alone.
pub proof fn lemma_replay_is_determined(a: InstallerModel, b: InstallerModel, ms: Seq<Message>)
    requires
        a.current == b.current,
        a.steps == b.steps,
        a.context == b.context,
        a.config == b.config,
    ensures
        replay(a, ms).context == replay(b, ms).context,
        replay(a, ms).config == replay(b, ms).config,
        replay(a, ms).current == replay(b, ms).current,
        replay(a, ms).steps == replay(b, ms).steps,
    decreases ms.len(),
{
    if ms.len() > 0 {
        lemma_replay_is_determined(stepped(a, ms[0]), stepped(b, ms[0]), ms.drop_first());
    }
}

impl View for Installer {
    type V = InstallerModel;

    closed spec fn view(&self) -> InstallerModel {
        InstallerModel {
            should_exit: self.should_exit,
            current: self.current as nat,
            steps: self.steps@,
            context: self.context,
            config: self.config,
        }
    }
}

impl Installer {
    /// A wizard at its first step, for a daemon whose data goes under
    /// `destination_path`, on `network`.
    pub fn new(destination_path: String, network: Network) -> (r: Installer)
        ensures
            well_formed(r@),
            r@.current == 0,
            !r@.should_exit,
            r@.steps.len() == 4,
            r@.steps[0] == Step::Welcome(Welcome { network, use_default_bitcoind: false }),
            r@.steps[1] is DefineDescriptor && !r@.steps[1]->DefineDescriptor_0.valid
                && r@.steps[1]->DefineDescriptor_0.descriptor@.len() == 0,
            r@.steps[2] is DefineBitcoind && !r@.steps[2]->DefineBitcoind_0.address_valid
                && r@.steps[2]->DefineBitcoind_0.address@.len() == 0
                && r@.steps[2]->DefineBitcoind_0.cookie_path@.len() == 0,
            r@.steps[3] is Final && r@.steps[3]->Final_0.status is Ready,
            r@.context == (Context {
                network,
                descriptor: None,
                bitcoind: None,
                use_default_bitcoind: false,
            }),
            r@.config.data_dir == Some(destination_path),
            r@.config.network == network,
            r@.config.main_descriptor is None,
            r@.config.bitcoind_config is None,
            r@.config.poll_interval_secs == crate::step::DEFAULT_POLL_INTERVAL_SECS,
    {
        let config = DaemonConfig::new(destination_path, network);
        let mut steps: Vec<Step> = Vec::new();
        steps.push(Step::Welcome(Welcome::new(network)));
        steps.push(Step::DefineDescriptor(DefineDescriptor::new()));
        steps.push(Step::DefineBitcoind(DefineBitcoind::new()));
        steps.push(Step::Final(Final::new()));
        Installer { should_exit: false, config, current: 0, steps, context: Context::new(network) }
    }

    /// Moves one step forward, unless at the last step.
    pub fn next(&mut self)
        requires
            well_formed(old(self)@),
        ensures
            final(self)@ == (InstallerModel {
                current: advance_index(old(self)@.steps.len(), old(self)@.current),
                ..old(self)@
            }),
            well_formed(final(self)@),
    {
        if self.current < self.steps.len() - 1 {
            self.current += 1;
        }
    }

    /// Moves one step back, unless at the first step.
    pub fn previous(&mut self)
        requires
            well_formed(old(self)@),
        ensures
            final(self)@ == (InstallerModel { current: retreat_index(old(self)@.current), ..old(self)@ }),
            well_formed(final(self)@),
    {
        if self.current > 0 {
            self.current -= 1;
        }
    }

    pub fn should_exit(&self) -> (r: bool)
        ensures
            r == self@.should_exit,
    {
        self.should_exit
    }

    /// Marks the wizard as ended; the mark is never taken back.
    pub fn stop(&mut self)
        ensures
            final(self)@ == (InstallerModel { should_exit: true, ..old(self)@ }),
    {
        self.should_exit = true;
    }

    /// Position of the current step.
    pub fn current(&self) -> (r: usize)
        ensures
            r == self@.current,
    {
        self.current
    }

    /// The step the operator is on.
    pub fn current_step(&self) -> (r: &Step)
        requires
            well_formed(self@),
        ensures
            *r == self@.steps[self@.current as int],
    {
        &self.steps[self.current]
    }

    /// The step at `index`, if there is one.
    pub fn step(&self, index: usize) -> (r: Option<&Step>)
        ensures
            index < self@.steps.len() ==> r == Some(&self@.steps[index as int]),
            index >= self@.steps.len() ==> r is None,
    {
        if index < self.steps.len() {
            Some(&self.steps[index])
        } else {
            None
        }
    }

    /// Number of steps.
    pub fn len(&self) -> (r: usize)
        ensures
            r == self@.steps.len(),
    {
        self.steps.len()
    }

    pub fn context(&self) -> (r: &Context)
        ensures
            *r == self@.context,
    {
        &self.context
    }

    pub fn daemon_config(&self) -> (r: &DaemonConfig)
        ensures
            *r == self@.config,
    {
        &self.config
    }

    /// Handles one event: `Next` commits the current step and, if that
    /// succeeded, moves forward past the bypassed steps; `Previous` moves back
    /// one step; `CloseRequested` ends the wizard; every other event goes to
    /// the current step. `Install` also asks the caller to run the finalization.
    pub fn update(&mut self, message: Message) -> (r: Command)
        requires
            well_formed(old(self)@),
        ensures
            final(self)@ == stepped(old(self)@, message),
            well_formed(final(self)@),
            (r is Install) == (message is Install),
    {
        match message {
            Message::Next => {
                let cur = self.current;
                if self.steps[cur].apply(&mut self.context, &mut self.config) {
                    let ghost steps = self.steps@;
                    let ghost ctx = self.context;
                    let ghost cfg = self.config;
                    self.next();
                    let ghost start = self.current as nat;
                    while self.current < self.steps.len() - 1 && self.steps[self.current].skip(
                        &self.context,
                    )
                        invariant
                            self.steps@ == steps,
                            self.context == ctx,
                            self.config == cfg,
                            self.should_exit == old(self).should_exit,
                            2 <= steps.len(),
                            self.current < steps.len(),
                            skip_target(steps, ctx, self.current as nat) == skip_target(
                                steps,
                                ctx,
                                start,
                            ),
                        decreases steps.len() - self.current,
                    {
                        self.next();
                    }
                    let i = self.current;
                    assert(i == skip_target(steps, ctx, start));
                    self.steps[i].load_context(&self.context);
                    assert(self@ == after_commit(old(self)@));
                }
                Command::Idle
            },
            Message::Previous => {
                self.previous();
                Command::Idle
            },
            Message::Install => {
                let cur = self.current;
                self.steps[cur].update(Message::Install);
                Command::Install
            },
            Message::CloseRequested => {
                self.stop();
                Command::Idle
            },
            other => {
                let cur = self.current;
                self.steps[cur].update(other);
                Command::Idle
            },
        }
    }
}

} // verus!
