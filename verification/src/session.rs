//! The session: the attached process and the ranges cached for it.
//!
//! A session is detached or attached. While it is attached it may hold the
//! address ranges of the process's modules; they are fetched on the first
//! validity query and then kept until the session is detached. Attaching a
//! second time replaces the process handle and keeps the ranges.

use crate::backend::{
    process_by_pid, process_modules, process_read, Backend, ProcessHandle, ReadOutcome,
};
use crate::ranges::{
    any_range_includes, lemma_ranges_match_modules, modules_cover, ranges_contain,
    ranges_from_modules, ranges_of, AddressRange, Module,
};
use vstd::prelude::*;

verus! {

/// `yc_attach` reports this when the backend resolved the process.
pub const ATTACH_ACCEPTED: u32 = 1;

/// `yc_attach` reports this when the backend could not resolve the process.
pub const ATTACH_REJECTED: u32 = 0;

/// `yc_read` reports this when every byte was read.
pub const READ_OK: u32 = 0;

/// `yc_read` reports this when no process is attached.
pub const READ_NOT_ATTACHED: u32 = 1;

/// `yc_read` reports this when the backend could read only part of the span.
pub const READ_PARTIAL: u32 = 2;

/// `yc_read` reports this when the backend could not read the span.
pub const READ_FAILED: u32 = 3;

/// Why a validity query has no answer.
#[derive(Clone, Copy, Debug, PartialEq, Eq, Structural)]
pub enum CanReadError {
    /// No process is attached.
    NotAttached,
    /// The ranges were not cached yet and the backend could not list the
    /// modules of the process.
    ModuleQueryFailed,
}

/// What a session is, as far as its callers can tell: whether a process is
/// attached, and the cached ranges where there are any.
pub struct SessionState {
    pub attached: bool,
    pub ranges: Option<Seq<AddressRange>>,
}

impl SessionState {
    /// The state of a session that holds nothing.
    pub open spec fn detached() -> SessionState {
        SessionState { attached: false, ranges: None }
    }

    /// Ranges are only ever held for an attached process.
    pub open spec fn wf(self) -> bool {
        self.ranges is Some ==> self.attached
    }

    /// The state after an attach request. An accepted one leaves the session
    /// attached and the ranges as they were; a rejected one changes nothing.
    pub open spec fn attach(self, accepted: bool) -> SessionState {
        if accepted {
            SessionState { attached: true, ranges: self.ranges }
        } else {
            self
        }
    }

    /// The state after a detach.
    pub open spec fn detach(self) -> SessionState {
        SessionState::detached()
    }

    /// A validity query on this state has to ask the backend for the modules.
    pub open spec fn needs_modules(self) -> bool {
        self.attached && self.ranges is None
    }

    /// The state after a validity query for which the backend, if it was
    /// asked, answered `modules` (`None`: it failed). The answer is stored
    /// only where it was needed.
    pub open spec fn after_can_read(self, modules: Option<Seq<Module>>) -> SessionState {
        if self.needs_modules() && modules is Some {
            SessionState { attached: true, ranges: Some(ranges_of(modules->Some_0)) }
        } else {
            self
        }
    }

    /// The answer to a validity query for `address`, with `modules` as in
    /// `after_can_read`.
    pub open spec fn can_read(self, modules: Option<Seq<Module>>, address: u64) -> Result<
        bool,
        CanReadError,
    > {
        if !self.attached {
            Err(CanReadError::NotAttached)
        } else if self.ranges is Some {
            Ok(ranges_contain(self.ranges->Some_0, address))
        } else if modules is Some {
            Ok(modules_cover(modules->Some_0, address))
        } else {
            Err(CanReadError::ModuleQueryFailed)
        }
    }
}

/// The status `yc_read` reports for a read on a session that is attached or
/// not, where the backend, if it was asked, reported `outcome`.
pub open spec fn read_status(attached: bool, outcome: ReadOutcome) -> u32 {
    if !attached {
        READ_NOT_ATTACHED
    } else {
        match outcome {
            ReadOutcome::Complete => READ_OK,
            ReadOutcome::PartialRead => READ_PARTIAL,
            ReadOutcome::PartialWrite => READ_FAILED,
            ReadOutcome::Error => READ_FAILED,
        }
    }
}

/// A module list, where there is one, as a sequence.
pub open spec fn listed(modules: Option<Vec<Module>>) -> Option<Seq<Module>> {
    match modules {
        Some(modules) => Some(modules@),
        None => None,
    }
}

/// Every byte of `bytes` is zero.
pub open spec fn all_zero(bytes: Seq<u8>) -> bool {
    forall|i: int| 0 <= i < bytes.len() ==> bytes[i] == 0
}

/// A process handle together with the ranges cached for that attachment.
struct Attachment<H> {
    process: H,
    ranges: Option<Vec<AddressRange>>,
}

/// The attached process, if any, and the ranges cached for it. `H` is the
/// type of the process handle. Ranges are stored beside the handle they
/// belong to, so a session never holds ranges without a process.
pub struct Session<H> {
    attachment: Option<Attachment<H>>,
}

impl<H> View for Session<H> {
    type V = SessionState;

    closed spec fn view(&self) -> SessionState {
        match self.attachment {
            Some(attachment) => SessionState {
                attached: true,
                ranges: match attachment.ranges {
                    Some(ranges) => Some(ranges@),
                    None => None,
                },
            },
            None => SessionState::detached(),
        }
    }
}

impl<H> Session<H> {
    /// The process handle the session holds.
    pub closed spec fn handle(&self) -> Option<H> {
        match self.attachment {
            Some(attachment) => Some(attachment.process),
            None => None,
        }
    }

    /// A session with no process attached and nothing cached.
    pub fn new() -> (session: Self)
        ensures
            session@ == SessionState::detached(),
            session.handle() is None,
    {
        Session { attachment: None }
    }

    /// Whether a process is attached.
    pub fn is_attached(&self) -> (attached: bool)
        ensures
            attached == self@.attached,
    {
        self.attachment.is_some()
    }

    /// Whether the next validity query has to ask the backend for the
    /// modules of the process.
    pub fn needs_modules(&self) -> (needed: bool)
        ensures
            needed == self@.needs_modules(),
    {
        match &self.attachment {
            Some(attachment) => attachment.ranges.is_none(),
            None => false,
        }
    }

    /// Takes the backend's answer to an attach request: the handle of the
    /// process, or `None` where it could not resolve one. A handle replaces
    /// the one held before and leaves the cached ranges in place; `None`
    /// leaves the session as it was.
    pub fn attach_resolved(&mut self, resolved: Option<H>) -> (status: u32)
        ensures
            status == if resolved is Some { ATTACH_ACCEPTED } else { ATTACH_REJECTED },
            final(self)@ == old(self)@.attach(resolved is Some),
            final(self).handle() == if resolved is Some { resolved } else { old(self).handle() },
    {
        match resolved {
            Some(process) => {
                let ranges = match self.attachment.take() {
                    Some(previous) => previous.ranges,
                    None => None,
                };
                self.attachment = Some(Attachment { process, ranges });
                ATTACH_ACCEPTED
            },
            None => ATTACH_REJECTED,
        }
    }

    /// Answers a validity query for `address`. `modules` is what the backend
    /// listed for the attached process, or `None` where it was not asked or
    /// could not tell; it is looked at only where `needs_modules` holds, and
    /// is then cached for the queries to come.
    pub fn can_read_with(&mut self, modules: Option<Vec<Module>>, address: u64) -> (answer: Result<
        bool,
        CanReadError,
    >)
        ensures
            answer == old(self)@.can_read(listed(modules), address),
            final(self)@ == old(self)@.after_can_read(listed(modules)),
            final(self).handle() == old(self).handle(),
            answer matches Ok(found) ==> final(self)@.ranges matches Some(ranges) && found
                == ranges_contain(ranges, address),
    {
        match &mut self.attachment {
            Some(attachment) => {
                match &attachment.ranges {
                    Some(ranges) => Ok(any_range_includes(ranges, address)),
                    None => match modules {
                        Some(modules) => {
                            let ranges = ranges_from_modules(&modules);
                            proof {
                                lemma_ranges_match_modules(modules@, address);
                            }
                            let found = any_range_includes(&ranges, address);
                            attachment.ranges = Some(ranges);
                            Ok(found)
                        },
                        None => Err(CanReadError::ModuleQueryFailed),
                    },
                }
            },
            None => Err(CanReadError::NotAttached),
        }
    }

    /// Drops the process handle and the cached ranges.
    pub fn detach(&mut self)
        ensures
            final(self)@ == old(self)@.detach(),
            final(self).handle() is None,
    {
        self.attachment = None;
    }
}

/// Whatever was done to a session, it holds ranges only while a process is
/// attached.
pub proof fn lemma_ranges_only_while_attached<H>(session: Session<H>)
    ensures
        session@.wf(),
{
}

/// Attach, detach and validity queries keep a state well formed.
pub proof fn lemma_steps_keep_wf(state: SessionState, accepted: bool, modules: Option<Seq<Module>>)
    requires
        state.wf(),
    ensures
        state.attach(accepted).wf(),
        state.detach().wf(),
        state.after_can_read(modules).wf(),
{
}

/// On a session that holds no ranges, an accepted attach followed by a
/// validity query that gets the module list answers `true` for an address
/// that one of the modules covers and `false` for every other address.
pub proof fn lemma_attach_then_can_read(state: SessionState, modules: Seq<Module>, address: u64)
    requires
        state.ranges is None,
    ensures
        state.attach(true).can_read(Some(modules), address) == Ok::<bool, CanReadError>(
            modules_cover(modules, address),
        ),
        forall|i: int|
            0 <= i < modules.len() && #[trigger] modules[i].covers(address) ==> state.attach(
                true,
            ).can_read(Some(modules), address) == Ok::<bool, CanReadError>(true),
{
}

/// A detach forgets the ranges: after it, an accepted attach and a validity
/// query ask the backend anew, and both the answer and the ranges cached from
/// then on come from the module list given then, whatever was cached before.
pub proof fn lemma_detach_then_fresh_ranges(
    state: SessionState,
    modules: Seq<Module>,
    address: u64,
)
    ensures
        state.detach().attach(true).needs_modules(),
        state.detach().attach(true).can_read(Some(modules), address) == Ok::<bool, CanReadError>(
            modules_cover(modules, address),
        ),
        state.detach().attach(true).after_can_read(Some(modules)).ranges == Some(
            ranges_of(modules),
        ),
{
}

/// A second detach in a row changes nothing.
pub proof fn lemma_detach_idempotent(state: SessionState)
    ensures
        state.detach().detach() == state.detach(),
        state.detach() == SessionState::detached(),
{
}

/// A detached session answers no validity query and reads nothing, whatever
/// the backend would have said.
pub proof fn lemma_detached_refuses(
    state: SessionState,
    modules: Option<Seq<Module>>,
    address: u64,
    outcome: ReadOutcome,
)
    ensures
        state.detach().can_read(modules, address) == Err::<bool, CanReadError>(
            CanReadError::NotAttached,
        ),
        read_status(state.detach().attached, outcome) == READ_NOT_ATTACHED,
        read_status(state.detach().attached, outcome) != READ_OK,
{
}

/// Once ranges are cached, a validity query leaves the state as it is and
/// its answer does not depend on what the backend would list now.
pub proof fn lemma_cached_ranges_are_kept(
    state: SessionState,
    now: Option<Seq<Module>>,
    other: Option<Seq<Module>>,
    address: u64,
)
    requires
        state.attached,
        state.ranges is Some,
    ensures
        state.after_can_read(now) == state,
        state.can_read(now, address) == state.can_read(other, address),
        state.can_read(now, address) == Ok::<bool, CanReadError>(
            ranges_contain(state.ranges->Some_0, address),
        ),
{
}

/// How often the backend is asked for the module list while the addresses
/// are queried one after the other, with a backend that answers `modules`
/// whenever it is asked.
pub open spec fn module_queries(state: SessionState, modules: Seq<Module>, addresses: Seq<u64>) -> nat
    decreases addresses.len(),
{
    if addresses.len() == 0 {
        0
    } else {
        let asked: nat = if state.needs_modules() {
            1
        } else {
            0
        };
        asked + module_queries(
            state.after_can_read(Some(modules)),
            modules,
            addresses.drop_first(),
        )
    }
}

/// The state after the addresses were queried one after the other, with a
/// backend that answers `modules` whenever it is asked.
pub open spec fn after_queries(state: SessionState, modules: Seq<Module>, count: nat) -> SessionState
    decreases count,
{
    if count == 0 {
        state
    } else {
        after_queries(state.after_can_read(Some(modules)), modules, (count - 1) as nat)
    }
}

/// The module list is fetched lazily and once: any number of validity
/// queries within one attachment asks the backend exactly once if no ranges
/// were cached before the first of them, and never if they were. After the
/// queries the ranges are those of the one module list that was fetched.
pub proof fn lemma_one_module_query(state: SessionState, modules: Seq<Module>, addresses: Seq<u64>)
    requires
        state.attached,
    ensures
        module_queries(state, modules, addresses) == if state.ranges is None && addresses.len()
            > 0 {
            1nat
        } else {
            0nat
        },
        after_queries(state, modules, addresses.len()) == if addresses.len() > 0 {
            state.after_can_read(Some(modules))
        } else {
            state
        },
    decreases addresses.len(),
{
    if addresses.len() > 0 {
        let next = state.after_can_read(Some(modules));
        lemma_one_module_query(next, modules, addresses.drop_first());
        assert(next.after_can_read(Some(modules)) == next);
    }
}

/// Sets every byte of `buffer` to zero.
pub fn zero_fill(buffer: &mut [u8])
    ensures
        final(buffer)@.len() == old(buffer)@.len(),
        all_zero(final(buffer)@),
{
    let mut i: usize = 0;
    while i < buffer.len()
        invariant
            buffer@.len() == old(buffer)@.len(),
            i <= buffer@.len(),
            forall|j: int| 0 <= j < i ==> buffer@[j] == 0,
        decreases buffer@.len() - i,
    {
        buffer[i] = 0;
        i += 1;
    }
}

/// Settles a read: `attached` says whether a process was there to read from,
/// `outcome` what the backend reported if it was. A complete read leaves the
/// buffer as the backend filled it; every other one leaves it zeroed.
pub fn settle_read(attached: bool, outcome: ReadOutcome, buffer: &mut [u8]) -> (status: u32)
    ensures
        status == read_status(attached, outcome),
        final(buffer)@.len() == old(buffer)@.len(),
        status == READ_OK ==> final(buffer)@ == old(buffer)@,
        status != READ_OK ==> all_zero(final(buffer)@),
{
    if !attached {
        zero_fill(buffer);
        return READ_NOT_ATTACHED;
    }
    match outcome {
        ReadOutcome::Complete => READ_OK,
        ReadOutcome::PartialRead => {
            zero_fill(buffer);
            READ_PARTIAL
        },
        ReadOutcome::PartialWrite => {
            zero_fill(buffer);
            READ_FAILED
        },
        ReadOutcome::Error => {
            zero_fill(buffer);
            READ_FAILED
        },
    }
}

/// Asks the backend for the process `pid` and, if it resolves one, attaches
/// the session to it in place of the process held before. The cached ranges
/// stay as they are. Returns `ATTACH_ACCEPTED` or `ATTACH_REJECTED`; a
/// rejected request leaves the session untouched.
pub fn yc_attach(
    backend: &Backend,
    session: &mut Session<ProcessHandle>,
    pid: u32,
) -> (status: u32)
    ensures
        status == ATTACH_ACCEPTED || status == ATTACH_REJECTED,
        final(session)@ == old(session)@.attach(status == ATTACH_ACCEPTED),
        status == ATTACH_REJECTED ==> final(session).handle() == old(session).handle(),
{
    let resolved = match process_by_pid(backend, pid) {
        Ok(handle) => Some(handle),
        Err(_) => None,
    };
    session.attach_resolved(resolved)
}

/// Reads `buffer.len()` bytes at `address` of the attached process into
/// `buffer`. No range is consulted. The status is `READ_NOT_ATTACHED` on a
/// detached session and otherwise what the backend's answer maps to; unless
/// it is `READ_OK` the buffer is left zeroed.
pub fn yc_read(
    session: &mut Session<ProcessHandle>,
    address: usize,
    buffer: &mut [u8],
) -> (status: u32)
    ensures
        final(session)@ == old(session)@,
        final(buffer)@.len() == old(buffer)@.len(),
        !old(session)@.attached ==> status == READ_NOT_ATTACHED,
        old(session)@.attached ==> status == READ_OK || status == READ_PARTIAL || status
            == READ_FAILED,
        status != READ_OK ==> all_zero(final(buffer)@),
{
    match &mut session.attachment {
        Some(attachment) => {
            let outcome = process_read(&mut attachment.process, address as u64, buffer);
            settle_read(true, outcome, buffer)
        },
        None => settle_read(false, ReadOutcome::Error, buffer),
    }
}

/// Tells whether `address` lies in one of the module ranges of the attached
/// process. The ranges are fetched from the backend on the first query after
/// an attach that found none cached, and every later query is answered from
/// them without a word to the backend.
pub fn yc_can_read(session: &mut Session<ProcessHandle>, address: usize) -> (answer: Result<
    bool,
    CanReadError,
>)
    ensures
        exists|modules: Option<Seq<Module>>|
            {
                &&& answer == #[trigger] old(session)@.can_read(modules, address as u64)
                &&& final(session)@ == old(session)@.after_can_read(modules)
            },
        !old(session)@.needs_modules() ==> final(session)@ == old(session)@,
        answer matches Ok(found) ==> final(session)@.ranges matches Some(ranges) && found
            == ranges_contain(ranges, address as u64),
{
    let modules = match &mut session.attachment {
        Some(attachment) => {
            if attachment.ranges.is_none() {
                match process_modules(&mut attachment.process) {
                    Ok(modules) => Some(modules),
                    Err(_) => None,
                }
            } else {
                None
            }
        },
        None => None,
    };
    let ghost seen = listed(modules);
    let answer = session.can_read_with(modules, address as u64);
    assert(answer == old(session)@.can_read(seen, address as u64));
    answer
}

/// Detaches the session: the process handle and the cached ranges are
/// dropped together. On a detached session this changes nothing.
pub fn yc_detach<H>(session: &mut Session<H>)
    ensures
        final(session)@ == old(session)@.detach(),
        final(session).handle() is None,
{
    session.detach();
}

} // verus!
