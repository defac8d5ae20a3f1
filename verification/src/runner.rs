//! The task runner: the protocol state machine that executes one task.
//!
//! The runner owns the sequence counter and the fragment counter.  `start`
//! formats the request that opens an exchange; `on_response` consumes one
//! parsed response fragment and decides everything the protocol requires of
//! it — acceptance, rejection with a typed error, and whether a confirmation
//! must be transmitted.  The surrounding I/O loop transmits what the runner
//! hands back, delivers accepted object payloads to the task's handler, and
//! waits for the next frame under the per-fragment deadline.

use vstd::prelude::*;
use crate::control::{
    confirm_solicited, confirm_solicited_data, confirm_unsolicited, confirm_unsolicited_data,
    Control, ResponseHeader,
};
use crate::count::ResponseCount;
use crate::error::TaskError;
use crate::sequence::{lemma_mod16_successor, Sequence};
use crate::task::{MasterTask, TaskStatus};

verus! {

/// The view of an optional byte buffer as an optional byte sequence.
pub open spec fn option_data(o: Option<Vec<u8>>) -> Option<Seq<u8>> {
    match o {
        Some(v) => Some(v@),
        None => None,
    }
}

/// The validation verdict of the read-response path: the first rule a read
/// fragment breaks, given the last issued sequence number and the number of
/// fragments already accepted, or `None` when the fragment is acceptable.
pub open spec fn read_response_error(prev_seq: int, count: int, control: Control) -> Option<
    TaskError,
> {
    if control.seq as int != prev_seq {
        Some(TaskError::BadSequence)
    } else if control.fir && count != 0 {
        Some(TaskError::UnexpectedFir)
    } else if !control.fir && count == 0 {
        Some(TaskError::NeverReceivedFir)
    } else {
        None
    }
}

/// The validation verdict of the non-read-response path: a non-read response
/// must echo the last issued sequence number and be self-contained.
pub open spec fn non_read_response_error(prev_seq: int, control: Control) -> Option<TaskError> {
    if control.seq as int != prev_seq {
        Some(TaskError::BadSequence)
    } else if !(control.fir && control.fin) {
        Some(TaskError::MultiFragmentResponse)
    } else {
        None
    }
}

/// The sequence counter's next value after accepting a read fragment: every
/// intermediate fragment consumes a new sequence number; the final one does
/// not.
pub open spec fn read_step_next_seq(next_seq: int, control: Control) -> int {
    if control.fin {
        next_seq
    } else {
        (next_seq + 1) % 16
    }
}

/// The solicited confirmation an accepted fragment calls for: one exactly
/// when the fragment requests it, echoing the fragment's sequence number.
pub open spec fn confirm_of(control: Control) -> Option<Seq<u8>> {
    if control.con {
        Some(confirm_solicited_data(control.seq))
    } else {
        None
    }
}

/// The confirmation an unsolicited response calls for.
pub open spec fn unsolicited_confirm_of(control: Control) -> Option<Seq<u8>> {
    if control.con {
        Some(confirm_unsolicited_data(control.seq))
    } else {
        None
    }
}

/// What an accepted fragment obliges the caller to do: transmit the
/// confirmation, if any, then deliver the fragment's object payload to the
/// task; `status` says whether the task expects further fragments.
pub struct FragmentAction {
    /// The confirmation to transmit before the payload is handled, if the
    /// fragment requested one.
    pub confirm: Option<Vec<u8>>,
    /// The task's continuation status.
    pub status: TaskStatus,
}

/// The runner's decision on one parsed response fragment.
pub enum ResponseOutcome {
    /// An unsolicited response, routed around the active exchange: deliver
    /// its payload to the unsolicited-response callback and transmit the
    /// confirmation, if any, to the originating address.  The active task's
    /// exchange is undisturbed; its deadline is not renewed.
    Unsolicited {
        /// The unsolicited confirmation to transmit, if requested.
        confirm: Option<Vec<u8>>,
    },
    /// A solicited fragment accepted for the active task: transmit the
    /// confirmation, if any, then deliver the fragment's object payload to
    /// the task's handler.  When `complete` the run has succeeded; otherwise
    /// renew the deadline and wait for the next fragment.
    Accepted {
        /// The solicited confirmation to transmit, if requested.
        confirm: Option<Vec<u8>>,
        /// True when this fragment terminates the run successfully.
        complete: bool,
    },
    /// A fatal protocol violation: notify the task and abort the run.
    Failed(TaskError),
}

/// Executes one task at a time to a terminal outcome.  Only the sequence
/// counter survives from one run to the next; the fragment counter is reset
/// by `start`.
pub struct TaskRunner {
    seq: Sequence,
    reply_timeout_ms: u64,
    count: ResponseCount,
}

impl TaskRunner {
    /// The sequence number the runner will issue next.
    pub closed spec fn next_seq(self) -> int {
        self.seq.next_value()
    }

    /// The sequence number the runner issued last; the value every solicited
    /// response must echo.
    pub open spec fn previous_seq(self) -> int {
        (self.next_seq() + 15) % 16
    }

    /// The number of fragments accepted for the task in flight.
    pub closed spec fn fragment_count(self) -> int {
        self.count.value_of()
    }

    /// The configured per-fragment reply timeout.
    pub closed spec fn timeout_ms_spec(self) -> u64 {
        self.reply_timeout_ms
    }

    pub open spec fn wf(self) -> bool {
        0 <= self.next_seq() < 16
    }

    /// A fresh runner with the given per-fragment reply timeout.
    pub fn new(reply_timeout_ms: u64) -> (r: Self)
        ensures
            r.wf(),
            r.next_seq() == 0,
            r.fragment_count() == 0,
            r.timeout_ms_spec() == reply_timeout_ms,
    {
        TaskRunner { seq: Sequence::new(), reply_timeout_ms, count: ResponseCount::new() }
    }

    /// The number of response fragments accepted for the task in flight.
    pub fn fragments_accepted(&self) -> (r: usize)
        ensures
            r as int == self.fragment_count(),
    {
        self.count.value()
    }

    /// The configured per-fragment reply timeout, in milliseconds.
    pub fn reply_timeout_ms(&self) -> (r: u64)
        ensures
            r == self.timeout_ms_spec(),
    {
        self.reply_timeout_ms
    }

    /// Opens an exchange: resets the fragment counter, issues a fresh
    /// sequence number, and returns the task's formatted request, which the
    /// caller transmits to the task's destination.
    pub fn start(&mut self, task: &MasterTask) -> (r: Vec<u8>)
        requires
            old(self).wf(),
        ensures
            final(self).wf(),
            final(self).fragment_count() == 0,
            final(self).next_seq() == (old(self).next_seq() + 1) % 16,
            final(self).previous_seq() == old(self).next_seq(),
            final(self).timeout_ms_spec() == old(self).timeout_ms_spec(),
            r@ == task.details.request_spec(old(self).next_seq() as u8),
    {
        self.count.reset();
        let seq = self.seq.increment();
        task.details.format(seq)
    }

    /// The read-response path.  Validates the fragment against the sequence
    /// and FIR rules — rejection leaves the runner untouched — then counts
    /// it, asks for the confirmation it requests, and advances the sequence
    /// counter when further fragments are expected.
    pub fn handle_read_response(&mut self, header: ResponseHeader) -> (r: Result<
        FragmentAction,
        TaskError,
    >)
        requires
            old(self).wf(),
            header.wf(),
            old(self).fragment_count() < usize::MAX,
        ensures
            final(self).wf(),
            final(self).timeout_ms_spec() == old(self).timeout_ms_spec(),
            read_response_error(old(self).previous_seq(), old(self).fragment_count(), header.control)
                matches Some(e) ==> r == Err::<FragmentAction, TaskError>(e) && *final(self) == *old(
                self,
            ),
            read_response_error(old(self).previous_seq(), old(self).fragment_count(), header.control)
                is None ==> {
                &&& r is Ok
                &&& final(self).fragment_count() == old(self).fragment_count() + 1
                &&& final(self).next_seq() == read_step_next_seq(old(self).next_seq(), header.control)
                &&& option_data((r->Ok_0).confirm) == confirm_of(header.control)
                &&& (r->Ok_0).status == (if header.control.fin {
                    TaskStatus::Complete
                } else {
                    TaskStatus::ReadNextResponse
                })
            },
    {
        if header.control.seq != self.seq.previous() {
            return Err(TaskError::BadSequence);
        }
        if header.control.fir && !self.count.is_none() {
            return Err(TaskError::UnexpectedFir);
        }
        if !header.control.fir && self.count.is_none() {
            return Err(TaskError::NeverReceivedFir);
        }
        self.count.increment();
        let confirm = if header.control.con {
            Some(confirm_solicited(header.control.seq))
        } else {
            None
        };
        let status = if header.control.fin {
            TaskStatus::Complete
        } else {
            TaskStatus::ReadNextResponse
        };
        if !header.control.fin {
            self.seq.increment();
        }
        Ok(FragmentAction { confirm, status })
    }

    /// The non-read-response path.  The fragment must echo the last issued
    /// sequence number and be self-contained; a confirmation is still asked
    /// for when requested, although a non-read response should not request
    /// one.  The runner's state is never changed on this path.
    pub fn handle_non_read_response(&mut self, header: ResponseHeader) -> (r: Result<
        FragmentAction,
        TaskError,
    >)
        requires
            old(self).wf(),
            header.wf(),
        ensures
            *final(self) == *old(self),
            non_read_response_error(old(self).previous_seq(), header.control) matches Some(e) ==> r
                == Err::<FragmentAction, TaskError>(e),
            non_read_response_error(old(self).previous_seq(), header.control) is None ==> {
                &&& r is Ok
                &&& option_data((r->Ok_0).confirm) == confirm_of(header.control)
                &&& (r->Ok_0).status == TaskStatus::Complete
            },
    {
        if header.control.seq != self.seq.previous() {
            return Err(TaskError::BadSequence);
        }
        if !(header.control.fir && header.control.fin) {
            return Err(TaskError::MultiFragmentResponse);
        }
        let confirm = if header.control.con {
            Some(confirm_solicited(header.control.seq))
        } else {
            None
        };
        Ok(FragmentAction { confirm, status: TaskStatus::Complete })
    }

    /// Dispatches a solicited response to the read or non-read path,
    /// according to the task in flight.
    pub fn handle_response(&mut self, task: &MasterTask, header: ResponseHeader) -> (r: Result<
        FragmentAction,
        TaskError,
    >)
        requires
            old(self).wf(),
            header.wf(),
            old(self).fragment_count() < usize::MAX,
        ensures
            final(self).wf(),
            final(self).timeout_ms_spec() == old(self).timeout_ms_spec(),
            task.details is Read ==> {
                &&& read_response_error(
                    old(self).previous_seq(),
                    old(self).fragment_count(),
                    header.control,
                ) matches Some(e) ==> r == Err::<FragmentAction, TaskError>(e) && *final(self)
                    == *old(self)
                &&& read_response_error(
                    old(self).previous_seq(),
                    old(self).fragment_count(),
                    header.control,
                ) is None ==> {
                    &&& r is Ok
                    &&& final(self).fragment_count() == old(self).fragment_count() + 1
                    &&& final(self).next_seq() == read_step_next_seq(
                        old(self).next_seq(),
                        header.control,
                    )
                    &&& option_data((r->Ok_0).confirm) == confirm_of(header.control)
                    &&& (r->Ok_0).status == (if header.control.fin {
                        TaskStatus::Complete
                    } else {
                        TaskStatus::ReadNextResponse
                    })
                }
            },
            !(task.details is Read) ==> {
                &&& *final(self) == *old(self)
                &&& non_read_response_error(old(self).previous_seq(), header.control)
                    matches Some(e) ==> r == Err::<FragmentAction, TaskError>(e)
                &&& non_read_response_error(old(self).previous_seq(), header.control) is None ==> {
                    &&& r is Ok
                    &&& option_data((r->Ok_0).confirm) == confirm_of(header.control)
                    &&& (r->Ok_0).status == TaskStatus::Complete
                }
            },
    {
        if task.details.is_read_request() {
            self.handle_read_response(header)
        } else {
            self.handle_non_read_response(header)
        }
    }

    /// Consumes one parsed response fragment and decides what the protocol
    /// requires of it.  An unsolicited response is routed around the active
    /// exchange and never disturbs the sequence counter or the fragment
    /// counter; a solicited one is validated and accepted or rejected as the
    /// read and non-read paths say.
    pub fn on_response(&mut self, task: &MasterTask, header: ResponseHeader) -> (r: ResponseOutcome)
        requires
            old(self).wf(),
            header.wf(),
            old(self).fragment_count() < usize::MAX,
        ensures
            final(self).wf(),
            final(self).timeout_ms_spec() == old(self).timeout_ms_spec(),
            header.unsolicited ==> {
                &&& *final(self) == *old(self)
                &&& r matches ResponseOutcome::Unsolicited { confirm } && option_data(confirm)
                    == unsolicited_confirm_of(header.control)
            },
            !header.unsolicited && task.details is Read ==> {
                &&& read_response_error(
                    old(self).previous_seq(),
                    old(self).fragment_count(),
                    header.control,
                ) matches Some(e) ==> r == ResponseOutcome::Failed(e) && *final(self) == *old(self)
                &&& read_response_error(
                    old(self).previous_seq(),
                    old(self).fragment_count(),
                    header.control,
                ) is None ==> {
                    &&& final(self).fragment_count() == old(self).fragment_count() + 1
                    &&& final(self).next_seq() == read_step_next_seq(
                        old(self).next_seq(),
                        header.control,
                    )
                    &&& r matches ResponseOutcome::Accepted { confirm, complete } && option_data(
                        confirm,
                    ) == confirm_of(header.control) && complete == header.control.fin
                }
            },
            !header.unsolicited && !(task.details is Read) ==> {
                &&& *final(self) == *old(self)
                &&& non_read_response_error(old(self).previous_seq(), header.control)
                    matches Some(e) ==> r == ResponseOutcome::Failed(e)
                &&& non_read_response_error(old(self).previous_seq(), header.control) is None ==> (
                r matches ResponseOutcome::Accepted { confirm, complete } && option_data(confirm)
                    == confirm_of(header.control) && complete == header.control.fin)
            },
    {
        if header.unsolicited {
            let confirm = if header.control.con {
                Some(confirm_unsolicited(header.control.seq))
            } else {
                None
            };
            return ResponseOutcome::Unsolicited { confirm };
        }
        match self.handle_response(task, header) {
            Err(e) => ResponseOutcome::Failed(e),
            Ok(action) => ResponseOutcome::Accepted {
                confirm: action.confirm,
                complete: header.control.fin,
            },
        }
    }
}

/// Law: a response that echoes a sequence number other than the last issued
/// one is rejected with the sequencing failure, on the read path and on the
/// non-read path alike, whatever its other control bits say.
pub proof fn lemma_bad_sequence_rejected(prev_seq: int, count: int, control: Control)
    requires
        control.seq as int != prev_seq,
    ensures
        read_response_error(prev_seq, count, control) == Some(TaskError::BadSequence),
        non_read_response_error(prev_seq, control) == Some(TaskError::BadSequence),
{
}

/// Law: a non-read response that is not self-contained is rejected with the
/// multi-fragment failure, even when its sequence number is correct.
pub proof fn lemma_non_read_single_fragment(prev_seq: int, control: Control)
    requires
        control.seq as int == prev_seq,
        !(control.fir && control.fin),
    ensures
        non_read_response_error(prev_seq, control) == Some(TaskError::MultiFragmentResponse),
{
}

/// Law: on the read path, a fragment without FIR is rejected when no
/// fragment has been accepted yet, and a fragment with FIR is rejected once
/// one has been.
pub proof fn lemma_fir_ordering(prev_seq: int, count: int, control: Control)
    requires
        control.seq as int == prev_seq,
    ensures
        !control.fir && count == 0 ==> read_response_error(prev_seq, count, control) == Some(
            TaskError::NeverReceivedFir,
        ),
        control.fir && count != 0 ==> read_response_error(prev_seq, count, control) == Some(
            TaskError::UnexpectedFir,
        ),
{
}

/// Law: a three-fragment read exchange — FIR first, an intermediate
/// fragment, then FIN, each echoing the sequence number current at its
/// arrival and each requesting confirmation — is accepted fragment by
/// fragment in arrival order.  Every fragment calls for exactly one
/// confirmation echoing its own sequence number; the sequence counter
/// advances after each non-final fragment and not after the final one; and
/// the task reports completion at the final fragment only.
pub proof fn lemma_multi_fragment_read(s: int, h1: Control, h2: Control, h3: Control)
    requires
        0 <= s < 16,
        h1 == (Control { fir: true, fin: false, con: true, uns: false, seq: s as u8 }),
        h2 == (Control { fir: false, fin: false, con: true, uns: false, seq: ((s + 1) % 16) as u8 }),
        h3 == (Control { fir: false, fin: true, con: true, uns: false, seq: ((s + 2) % 16) as u8 }),
    ensures
        read_response_error(s, 0, h1) is None,
        confirm_of(h1) == Some(confirm_solicited_data(s as u8)),
        read_step_next_seq((s + 1) % 16, h1) == (s + 2) % 16,
        read_response_error((s + 1) % 16, 1, h2) is None,
        confirm_of(h2) == Some(confirm_solicited_data(((s + 1) % 16) as u8)),
        read_step_next_seq((s + 2) % 16, h2) == (s + 3) % 16,
        read_response_error((s + 2) % 16, 2, h3) is None,
        confirm_of(h3) == Some(confirm_solicited_data(((s + 2) % 16) as u8)),
        read_step_next_seq((s + 3) % 16, h3) == (s + 3) % 16,
        ((s + 2) % 16 + 15) % 16 == (s + 1) % 16,
        ((s + 3) % 16 + 15) % 16 == (s + 2) % 16,
        !h1.fin && !h2.fin && h3.fin,
{
    vstd::arithmetic::div_mod::lemma_mod_division_less_than_divisor(s + 1, 16);
    vstd::arithmetic::div_mod::lemma_mod_division_less_than_divisor(s + 2, 16);
    vstd::arithmetic::div_mod::lemma_small_mod(1, 16);
    vstd::arithmetic::div_mod::lemma_add_mod_noop(s + 1, 1, 16);
    vstd::arithmetic::div_mod::lemma_add_mod_noop(s + 2, 1, 16);
    lemma_mod16_successor((s + 1) % 16);
    lemma_mod16_successor((s + 2) % 16);
}

} // verus!
