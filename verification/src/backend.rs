//! The memflow calls the library is built on, each behind a function whose
//! contract is taken on trust.
//!
//! Nothing here is proved. What a backend answers depends on the machine it
//! runs on and on the process it looks at, so these functions promise nothing
//! about their results beyond what their types say; the one exception is that
//! a read leaves the length of the buffer as it was.

use crate::ranges::Module;
use vstd::prelude::*;

verus! {

/// memflow's error value, `memflow::error::Error`. It is carried through and
/// never looked into.
#[verifier::external_type_specification]
#[verifier::external_body]
pub struct ExError(memflow::error::Error);

/// memflow's plugin inventory, `memflow::plugins::Inventory`: the plugins
/// that a scan of the disk has found.
#[verifier::external_type_specification]
#[verifier::external_body]
pub struct ExInventory(memflow::plugins::Inventory);

/// Parsed connector arguments, `memflow::plugins::ConnectorArgs`.
#[verifier::external_type_specification]
#[verifier::external_body]
pub struct ExConnectorArgs(memflow::plugins::ConnectorArgs);

/// Parsed OS arguments, `memflow::plugins::os::OsArgs`.
#[verifier::external_type_specification]
#[verifier::external_body]
pub struct ExOsArgs(memflow::plugins::os::OsArgs);

/// A memflow connector instance, `ConnectorInstanceArcBox<'static>`.
#[verifier::external_body]
pub(crate) struct Connector {
    inner: memflow::plugins::ConnectorInstanceArcBox<'static>,
}

/// A memflow OS instance, `OsInstanceArcBox<'static>`: the backend every
/// attachment is resolved against. The field is public so that a host which
/// builds its OS instance by other means can hand it over.
#[verifier::external_body]
pub struct Backend {
    pub inner: memflow::plugins::os::OsInstanceArcBox<'static>,
}

/// A memflow process instance that owns its share of the backend,
/// `IntoProcessInstanceArcBox<'static>`.
#[verifier::external_body]
pub struct ProcessHandle {
    inner: memflow::plugins::os::IntoProcessInstanceArcBox<'static>,
}

/// What memflow reported of one read: success, or the variant of its
/// `PartialError`.
#[derive(Clone, Copy, Debug, PartialEq, Eq, Structural)]
pub enum ReadOutcome {
    /// Every byte was read.
    Complete,
    /// `PartialVirtualRead`: only part of the span could be read.
    PartialRead,
    /// `PartialVirtualWrite`: memflow's word for a write that went through in
    /// part only.
    PartialWrite,
    /// `Error`: the read failed as a whole.
    Error,
}

/// Calls the `FromStr` impl of `OsArgs` on `text`, which splits the text into
/// a target and a list of key-value pairs. Nothing is claimed of the result.
#[verifier::external_body]
pub(crate) fn parse_os_args(text: &str) -> (parsed: Result<
    memflow::plugins::os::OsArgs,
    memflow::error::Error,
>) {
    text.parse::<memflow::plugins::os::OsArgs>()
}

/// Calls `Inventory::instantiate_connector` for the connector plugin `name`,
/// with no OS to build on. Nothing is claimed of the result.
#[verifier::external_body]
pub(crate) fn instantiate_connector(
    inventory: &mut memflow::plugins::Inventory,
    name: &str,
    args: Option<&memflow::plugins::ConnectorArgs>,
) -> (created: Result<Connector, memflow::error::Error>) {
    let inner = inventory.instantiate_connector(name, None, args)?;
    Ok(Connector { inner })
}

/// Calls `Inventory::instantiate_os` for the OS plugin `name`, on top of
/// `connector` where there is one. Nothing is claimed of the result.
#[verifier::external_body]
pub(crate) fn instantiate_os(
    inventory: &mut memflow::plugins::Inventory,
    name: &str,
    connector: Option<Connector>,
    args: Option<&memflow::plugins::os::OsArgs>,
) -> (created: Result<Backend, memflow::error::Error>) {
    let inner = inventory.instantiate_os(name, connector.map(|c| c.inner), args)?;
    Ok(Backend { inner })
}

/// Calls `Os::into_process_by_pid` on a clone of the backend, which leaves the
/// backend itself in place. Nothing is claimed of the result.
#[verifier::external_body]
pub(crate) fn process_by_pid(backend: &Backend, pid: u32) -> (resolved: Result<
    ProcessHandle,
    memflow::error::Error,
>) {
    let inner = memflow::os::Os::into_process_by_pid(backend.inner.clone(), pid)?;
    Ok(ProcessHandle { inner })
}

/// Calls `Process::module_list` and keeps, of each module, its base address
/// and its size. Nothing is claimed of the result.
#[verifier::external_body]
pub(crate) fn process_modules(process: &mut ProcessHandle) -> (modules: Result<
    Vec<Module>,
    memflow::error::Error,
>) {
    let infos = memflow::os::Process::module_list(&mut process.inner)?;
    Ok(
        infos
            .into_iter()
            .map(|info| Module { base: info.base.to_umem(), size: info.size })
            .collect(),
    )
}

/// Calls `MemoryView::read_raw_into` at `address` and names the answer. The
/// buffer is a slice, so its length is what it was; nothing is claimed of its
/// bytes or of the outcome.
#[verifier::external_body]
pub(crate) fn process_read(
    process: &mut ProcessHandle,
    address: u64,
    buffer: &mut [u8],
) -> (outcome: ReadOutcome)
    ensures
        final(buffer)@.len() == old(buffer)@.len(),
{
    let address = memflow::types::Address::from(address);
    match memflow::mem::MemoryView::read_raw_into(&mut process.inner, address, buffer) {
        Ok(()) => ReadOutcome::Complete,
        Err(memflow::error::PartialError::PartialVirtualRead(())) => ReadOutcome::PartialRead,
        Err(memflow::error::PartialError::PartialVirtualWrite(())) => ReadOutcome::PartialWrite,
        Err(memflow::error::PartialError::Error(_)) => ReadOutcome::Error,
    }
}

} // verus!
