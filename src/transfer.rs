use vstd::prelude::*;
use crate::classify::{
    Strategy, Classification, classify, classification_of, lemma_no_dot_is_unclassifiable,
    lemma_colon_is_ignored,
};
use crate::text::has_char;

verus! {

/// What the run does with one directory entry.
#[derive(Clone, Copy, Debug, PartialEq, Eq, Structural)]
pub enum EntryAction {
    /// Leave the entry alone: not converted, not copied.
    Skip,
    /// Copy the entry to the error directory under its own name.
    CopyToError,
    /// Convert the entry with the given strategy.
    Convert(Strategy),
}

/// The answer of whoever is asked to confirm at the end of a batch.
#[derive(Clone, Copy, Debug, PartialEq, Eq, Structural)]
pub enum Answer {
    Continue,
    Stop,
}

/// The action that a classification calls for.
pub open spec fn action_for(c: Classification) -> EntryAction {
    match c {
        Classification::Unclassifiable => EntryAction::CopyToError,
        Classification::Ignored => EntryAction::Skip,
        Classification::Unsupported => EntryAction::CopyToError,
        Classification::Supported(s) => EntryAction::Convert(s),
    }
}

impl TransferView {
    /// The attempt about to be recorded completes a batch.
    pub open spec fn batch_full(self) -> bool {
        self.pausing() && self.count + 1 == self.batch_size
    }
}

/// The state after the entry named `name` has been looked at.
pub open spec fn entry_update(t: TransferView, name: Seq<char>) -> TransferView {
    if action_for(classification_of(name)) == EntryAction::CopyToError {
        TransferView { errored: t.errored + 1, ..t }
    } else {
        t
    }
}

/// The state after one conversion attempt, successful (`ok`) or not.
pub open spec fn outcome_update(t: TransferView, ok: bool) -> TransferView {
    TransferView {
        count: if t.pausing() && !t.batch_full() { t.count + 1 } else { 0 },
        converted: t.converted + if ok { 1nat } else { 0nat },
        errored: t.errored + if ok { 0nat } else { 1nat },
        attempts: t.attempts + 1,
        pauses: t.pauses + if t.batch_full() { 1nat } else { 0nat },
        ..t
    }
}

/// The state after one entry of a run whose confirmations are all answered with
/// `Continue`; `ok` is the outcome of its conversion, when it is converted.
pub open spec fn entry_step(t: TransferView, name: Seq<char>, ok: bool) -> TransferView {
    if action_for(classification_of(name)) is Convert {
        outcome_update(entry_update(t, name), ok)
    } else {
        entry_update(t, name)
    }
}

/// The state after a run over `names` in order, `oks[i]` being the outcome of
/// converting `names[i]`, with every confirmation answered with `Continue`.
pub open spec fn run_over(t: TransferView, names: Seq<Seq<char>>, oks: Seq<bool>) -> TransferView
    decreases names.len(),
{
    if names.len() == 0 {
        t
    } else {
        entry_step(
            run_over(t, names.drop_last(), oks.subrange(0, names.len() - 1)),
            names.last(),
            oks[names.len() - 1],
        )
    }
}

/// How many of `names` are converted: those classified as supported.
pub open spec fn supported_count(names: Seq<Seq<char>>) -> nat
    decreases names.len(),
{
    if names.len() == 0 {
        0
    } else {
        supported_count(names.drop_last()) + if classification_of(names.last()) is Supported {
            1nat
        } else {
            0nat
        }
    }
}

proof fn lemma_outcome_update(t: TransferView, ok: bool)
    requires
        t.wf(),
    ensures
        outcome_update(t, ok).wf(),
        t.batch_full() == (t.pausing() && (t.attempts + 1) as int % t.batch_size == 0),
{
    if t.pausing() {
        let b = t.batch_size;
        let p = t.pauses as int;
        let c = t.count;
        let a = (t.attempts + 1) as int;
        if t.batch_full() {
            assert(a == (p + 1) * b) by (nonlinear_arith)
                requires a == p * b + c + 1, c + 1 == b;
            vstd::arithmetic::div_mod::lemma_mod_multiples_basic(p + 1, b);
            vstd::arithmetic::mul::lemma_mul_is_commutative(p + 1, b);
        } else {
            vstd::arithmetic::div_mod::lemma_fundamental_div_mod_converse(a, b, p, c + 1);
        }
    }
}

/// The state of one run over a source directory.
pub struct Transfer {
    batch_size: isize,
    count: isize,
    converted: u64,
    errored: u64,
    stopped: bool,
    attempts: Ghost<nat>,
    pauses: Ghost<nat>,
}

/// The abstract state of a run.
pub struct TransferView {
    /// The batch size; a value of zero or below means no pausing.
    pub batch_size: int,
    /// Attempts since the last pause.
    pub count: int,
    /// Entries converted.
    pub converted: nat,
    /// Entries sent to the error directory.
    pub errored: nat,
    /// Whether a confirmation was answered with `Stop`.
    pub stopped: bool,
    /// Conversion attempts so far, successful or not.
    pub attempts: nat,
    /// Confirmations asked for so far.
    pub pauses: nat,
}

impl TransferView {
    /// Pausing is on: the batch size is positive.
    pub open spec fn pausing(self) -> bool {
        self.batch_size > 0
    }

    /// The counter stays below the batch size, and the confirmations asked for are
    /// exactly one per complete batch of attempts.
    pub open spec fn wf(self) -> bool {
        if self.pausing() {
            &&& 0 <= self.count < self.batch_size
            &&& self.attempts == self.pauses * self.batch_size + self.count
        } else {
            self.count == 0 && self.pauses == 0
        }
    }
}

impl View for Transfer {
    type V = TransferView;

    closed spec fn view(&self) -> TransferView {
        TransferView {
            batch_size: self.batch_size as int,
            count: self.count as int,
            converted: self.converted as nat,
            errored: self.errored as nat,
            stopped: self.stopped,
            attempts: self.attempts@,
            pauses: self.pauses@,
        }
    }
}

impl Transfer {
    /// A run that asks for confirmation after every `batch_size` attempts; a batch
    /// size of zero or below never pauses.
    pub fn new(batch_size: isize) -> (r: Transfer)
        ensures
            r@ == (TransferView {
                batch_size: batch_size as int,
                count: 0,
                converted: 0,
                errored: 0,
                stopped: false,
                attempts: 0,
                pauses: 0,
            }),
            r@.wf(),
    {
        Transfer {
            batch_size,
            count: 0,
            converted: 0,
            errored: 0,
            stopped: false,
            attempts: Ghost(0),
            pauses: Ghost(0),
        }
    }

    /// Decides what to do with the entry named `name`. An entry that is copied to
    /// the error directory at once is counted as errored; no entry decided here
    /// moves the batch counter.
    pub fn on_entry(&mut self, name: &str) -> (r: EntryAction)
        requires
            old(self)@.wf(),
            old(self)@.errored < u64::MAX,
        ensures
            r == action_for(classification_of(name@)),
            final(self)@ == (TransferView {
                errored: if r == EntryAction::CopyToError {
                    old(self)@.errored + 1
                } else {
                    old(self)@.errored
                },
                ..old(self)@
            }),
            final(self)@ == entry_update(old(self)@, name@),
            final(self)@.wf(),
    {
        let action = match classify(name) {
            Classification::Unclassifiable => EntryAction::CopyToError,
            Classification::Ignored => EntryAction::Skip,
            Classification::Unsupported => EntryAction::CopyToError,
            Classification::Supported(s) => EntryAction::Convert(s),
        };
        if action == EntryAction::CopyToError {
            self.errored = self.errored + 1;
        }
        action
    }

    /// Records the outcome of one conversion attempt and returns whether the
    /// batch is complete, in which case the caller asks for confirmation and
    /// reports the answer with `on_answer`.
    pub fn on_outcome(&mut self, converted: bool) -> (pause: bool)
        requires
            old(self)@.wf(),
            old(self)@.converted < u64::MAX,
            old(self)@.errored < u64::MAX,
        ensures
            final(self)@.wf(),
            final(self)@.attempts == old(self)@.attempts + 1,
            pause == (old(self)@.pausing() && final(self)@.attempts as int % old(self)@.batch_size == 0),
            final(self)@.pauses == old(self)@.pauses + if pause { 1nat } else { 0nat },
            final(self)@.count == if pause || !old(self)@.pausing() {
                0
            } else {
                old(self)@.count + 1
            },
            final(self)@.converted == old(self)@.converted + if converted { 1nat } else { 0nat },
            final(self)@.errored == old(self)@.errored + if converted { 0nat } else { 1nat },
            final(self)@.batch_size == old(self)@.batch_size,
            final(self)@.stopped == old(self)@.stopped,
            final(self)@ == outcome_update(old(self)@, converted),
    {
        proof {
            lemma_outcome_update(self@, converted);
        }
        if converted {
            self.converted = self.converted + 1;
        } else {
            self.errored = self.errored + 1;
        }
        self.attempts = Ghost(self.attempts@ + 1);
        if self.batch_size <= 0 {
            return false;
        }
        let pause = self.count + 1 == self.batch_size;
        if pause {
            self.count = 0;
            self.pauses = Ghost(self.pauses@ + 1);
        } else {
            self.count = self.count + 1;
        }
        pause
    }

    /// Records the answer to a confirmation and returns whether the run goes on.
    pub fn on_answer(&mut self, answer: Answer) -> (go_on: bool)
        requires
            old(self)@.wf(),
        ensures
            go_on == (answer == Answer::Continue),
            final(self)@ == (TransferView { stopped: answer == Answer::Stop, ..old(self)@ }),
            final(self)@.wf(),
    {
        self.stopped = answer == Answer::Stop;
        !self.stopped
    }

    /// Entries converted so far.
    pub fn converted(&self) -> (r: u64)
        ensures
            r == self@.converted,
    {
        self.converted
    }

    /// Entries sent to the error directory so far.
    pub fn errored(&self) -> (r: u64)
        ensures
            r == self@.errored,
    {
        self.errored
    }

    /// Whether a confirmation was answered with `Stop`.
    pub fn is_stopped(&self) -> (r: bool)
        ensures
            r == self@.stopped,
    {
        self.stopped
    }
}

/// With a positive batch size, a run that has made some number of conversion
/// attempts has asked for confirmation once per complete batch of attempts, and
/// its counter holds the attempts since the last batch ended.
pub proof fn lemma_pause_schedule(t: TransferView)
    requires
        t.wf(),
        t.pausing(),
    ensures
        t.pauses == t.attempts as int / t.batch_size,
        t.count == t.attempts as int % t.batch_size,
{
    vstd::arithmetic::div_mod::lemma_fundamental_div_mod_converse(
        t.attempts as int, t.batch_size, t.pauses as int, t.count);
}

/// A name without a `.` is always copied to the error directory, and a name with
/// a `.` and a `:` is always skipped: neither converted nor copied.
pub proof fn lemma_routing(name: Seq<char>)
    ensures
        !has_char(name, '.') ==> action_for(classification_of(name)) == EntryAction::CopyToError,
        has_char(name, '.') && has_char(name, ':') ==> action_for(classification_of(name))
            == EntryAction::Skip,
{
    if !has_char(name, '.') {
        lemma_no_dot_is_unclassifiable(name);
    } else if has_char(name, ':') {
        lemma_colon_is_ignored(name);
    }
}


proof fn lemma_run_over_wf(t: TransferView, names: Seq<Seq<char>>, oks: Seq<bool>)
    requires
        t.wf(),
        oks.len() == names.len(),
    ensures
        run_over(t, names, oks).wf(),
        run_over(t, names, oks).attempts == t.attempts + supported_count(names),
        run_over(t, names, oks).batch_size == t.batch_size,
    decreases names.len(),
{
    if names.len() > 0 {
        let prev = oks.subrange(0, names.len() - 1);
        lemma_run_over_wf(t, names.drop_last(), prev);
        let m = entry_update(run_over(t, names.drop_last(), prev), names.last());
        if action_for(classification_of(names.last())) is Convert {
            lemma_outcome_update(m, oks[names.len() - 1]);
        }
    }
}

/// Over a whole run in which every confirmation is answered with `Continue`, the
/// conversion attempts are exactly the supported entries: entries without a `.`,
/// sidecars and unsupported ones never move the batch counter. With a positive
/// batch size, confirmation is asked for once per complete batch of them; with a
/// batch size of zero or below it is never asked for.
pub proof fn lemma_run_schedule(batch_size: int, names: Seq<Seq<char>>, oks: Seq<bool>)
    requires
        oks.len() == names.len(),
    ensures
        ({
            let start = TransferView {
                batch_size,
                count: 0,
                converted: 0,
                errored: 0,
                stopped: false,
                attempts: 0,
                pauses: 0,
            };
            let end = run_over(start, names, oks);
            &&& end.attempts == supported_count(names)
            &&& batch_size > 0 ==> end.pauses == supported_count(names) as int / batch_size
            &&& batch_size <= 0 ==> end.pauses == 0
        }),
{
    let start = TransferView {
        batch_size,
        count: 0,
        converted: 0,
        errored: 0,
        stopped: false,
        attempts: 0,
        pauses: 0,
    };
    lemma_run_over_wf(start, names, oks);
    if batch_size > 0 {
        lemma_pause_schedule(run_over(start, names, oks));
    }
}

} // verus!
