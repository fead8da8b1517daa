//! Building the backend from its configuration.
//!
//! Finding the plugins on disk is the caller's part; it hands over the
//! inventory it found. What is decided here is which plugins are asked for
//! and with which arguments.

use crate::backend::{instantiate_connector, instantiate_os, parse_os_args, Backend, Connector};
use vstd::prelude::*;

verus! {

/// How the backend is to be built.
#[derive(Debug)]
pub struct BackendConfig {
    /// Directory to look for plugins in; memflow's default locations if none.
    /// This is for whoever scans for the plugins.
    pub scan_path: Option<String>,
    /// Connector type, such as "kvm", "qemu" or "native", if one is wanted.
    pub conn: Option<String>,
    /// Arguments for the connector.
    pub conn_args: Option<String>,
    /// OS type, such as "win32".
    pub os: String,
    /// Arguments for the OS.
    pub os_args: Option<String>,
}

/// The step at which building the backend failed.
#[derive(Clone, Copy, Debug, PartialEq, Eq, Structural)]
pub enum BootstrapError {
    /// The connector named in the configuration could not be created.
    Connector,
    /// The OS named in the configuration could not be created.
    Os,
}

/// What is handed to a plugin as its arguments: the parsed text, where there
/// was text and it could be parsed, and nothing otherwise.
pub fn usable_args<A, E>(parsed: Option<Result<A, E>>) -> (args: Option<A>)
    ensures
        args == match parsed {
            Some(Ok(a)) => Some(a),
            _ => None,
        },
{
    match parsed {
        Some(Ok(a)) => Some(a),
        _ => None,
    }
}

/// Settles the connector step. `created` is `None` where the configuration
/// names no connector, and otherwise what creating it gave. Only a connector
/// that was asked for and could not be created is an error.
pub fn connector_step<C, E>(created: Option<Result<C, E>>) -> (step: Result<
    Option<C>,
    BootstrapError,
>)
    ensures
        step == match created {
            None => Ok::<Option<C>, BootstrapError>(None),
            Some(Ok(connector)) => Ok(Some(connector)),
            Some(Err(_)) => Err(BootstrapError::Connector),
        },
{
    match created {
        None => Ok(None),
        Some(Ok(connector)) => Ok(Some(connector)),
        Some(Err(_)) => Err(BootstrapError::Connector),
    }
}

/// Settles the OS step: the OS that was created, or the error of this step.
pub fn os_step<B, E>(created: Result<B, E>) -> (step: Result<B, BootstrapError>)
    ensures
        step == match created {
            Ok(os) => Ok::<B, BootstrapError>(os),
            Err(_) => Err(BootstrapError::Os),
        },
{
    match created {
        Ok(os) => Ok(os),
        Err(_) => Err(BootstrapError::Os),
    }
}

/// Builds the backend that `config` describes from the plugins in
/// `inventory`. A connector is created only where one is named, and the
/// connector arguments are looked at only then; arguments that did not parse
/// are left out. The OS is created on top of the connector, if any.
///
/// `connector_args` stands for `config.conn_args`: it is what memflow's
/// parser made of that text, and `None` where there is no text. The caller
/// parses it, because that parser multiplies a cache size out of the text
/// by its unit unchecked and so does not return for every text. The OS
/// arguments are parsed here.
///
/// Whether a plugin can be created is for memflow and the machine to say. A
/// connector error can only come from a configuration that names a
/// connector.
pub fn os_from_inventory(
    inventory: &mut memflow::plugins::Inventory,
    config: &BackendConfig,
    connector_args: Option<Result<memflow::plugins::ConnectorArgs, memflow::error::Error>>,
) -> (os: Result<Backend, BootstrapError>)
    ensures
        os matches Err(BootstrapError::Connector) ==> config.conn is Some,
{
    let created: Option<Result<Connector, memflow::error::Error>> = match &config.conn {
        Some(name) => {
            let args = usable_args(connector_args);
            Some(instantiate_connector(inventory, name.as_str(), args.as_ref()))
        },
        None => None,
    };
    let connector = match connector_step(created) {
        Ok(connector) => connector,
        Err(error) => {
            return Err(error);
        },
    };
    let args = usable_args(
        match &config.os_args {
            Some(text) => Some(parse_os_args(text.as_str())),
            None => None,
        },
    );
    os_step(instantiate_os(inventory, config.os.as_str(), connector, args.as_ref()))
}

} // verus!
