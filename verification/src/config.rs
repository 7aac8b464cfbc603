//! The per-client configuration document: a map from configuration keys to
//! installed server entries. Reading and writing the document's file is the
//! caller's concern; this module holds the document itself.

use vstd::prelude::*;

use crate::scalar::{Scalar, ScalarV};
use crate::strmap::StrMap;

verus! {

/// One installed plugin entry of a client configuration document.
pub struct ServerEntry {
    /// The runtime command that launches the server.
    pub runtime: String,
    /// The launch arguments, with `${NAME}` tokens already substituted.
    pub args: Vec<String>,
    /// The environment values the entry was installed with.
    pub env: StrMap<Scalar>,
}

/// The mathematical value of a [`ServerEntry`].
pub struct ServerEntryV {
    pub runtime: Seq<char>,
    pub args: Seq<Seq<char>>,
    pub env: Map<Seq<char>, ScalarV>,
}

impl View for ServerEntry {
    type V = ServerEntryV;

    open spec fn view(&self) -> ServerEntryV {
        ServerEntryV { runtime: self.runtime@, args: self.args.deep_view(), env: self.env@ }
    }
}

/// A client's configuration document: the map of installed server entries,
/// keyed by each plugin's configuration key.
pub struct ConfigDoc {
    pub servers: StrMap<ServerEntry>,
}

impl View for ConfigDoc {
    type V = Map<Seq<char>, ServerEntryV>;

    open spec fn view(&self) -> Map<Seq<char>, ServerEntryV> {
        self.servers@
    }
}

impl ConfigDoc {
    /// Well-formedness of the underlying entry list.
    pub open spec fn wf(&self) -> bool {
        self.servers.wf()
    }

    /// The empty document, as created for a client with no configuration file.
    pub fn new() -> (r: ConfigDoc)
        ensures
            r@ == Map::<Seq<char>, ServerEntryV>::empty(),
            r.wf(),
    {
        ConfigDoc { servers: StrMap::new() }
    }
}

} // verus!
