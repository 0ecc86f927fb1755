//! Script-extender plugin identity (FOSE / NVSE).
//!
//! The extender queries a plugin for its identity before loading it. The
//! C-string pointer and the extender's interface struct are handled where
//! the exports live; here is what the plugin answers.
use vstd::prelude::*;
use crate::text::chars_of;

verus! {

/// Interface version the plugin needs from the extender.
pub const PLUGIN_INTERFACE_VERSION: u32 = 1;

/// Identity a plugin reports to the extender.
#[derive(Debug, Clone)]
pub struct PluginInfo {
    /// Layout version of this record (always 1).
    pub info_version: u32,
    /// Plugin name.
    pub name: String,
    /// Plugin version.
    pub version: u32,
}

/// The name a plugin record can carry: the extender reads a C string, so a
/// name holding a NUL character is replaced by the empty name.
pub open spec fn c_name(name: Seq<char>) -> Seq<char> {
    if name.contains('\0') {
        Seq::empty()
    } else {
        name
    }
}

/// The record the plugin reports once accepted.
pub open spec fn is_bridge_info(info: PluginInfo) -> bool {
    &&& info.info_version == 1
    &&& info.name@ == "Ashfall Bridge"@
    &&& info.version == 1
}

/// Whether the plugin accepts the extender: an extender interface of at
/// least the needed version, or none at all (loaded without an extender).
pub open spec fn accepts(nvse_version: Option<u32>) -> bool {
    match nvse_version {
        Some(v) => v >= PLUGIN_INTERFACE_VERSION,
        None => true,
    }
}

impl PluginInfo {
    /// A record for `name` at `version`.
    pub fn new(name: &str, version: u32) -> (r: PluginInfo)
        ensures
            r.info_version == 1,
            r.name@ == c_name(name@),
            r.version == version,
    {
        let cs = chars_of(name);
        let mut i: usize = 0;
        while i < cs.len()
            invariant
                i <= cs@.len(),
                cs@ == name@,
                forall|j: int| 0 <= j < i ==> cs@[j] != '\0',
            decreases cs@.len() - i,
        {
            if cs[i] == '\0' {
                assert(name@.contains('\0')) by {
                    assert(name@[i as int] == '\0');
                }
                return PluginInfo { info_version: 1, name: String::new(), version };
            }
            i = i + 1;
        }
        assert(!name@.contains('\0'));
        PluginInfo { info_version: 1, name: name.to_string(), version }
    }

    /// The reported name.
    pub fn name_str(&self) -> (r: String)
        ensures
            r@ == self.name@,
    {
        self.name.clone()
    }
}

/// Answers the extender's query. `nvse_version` is the version of the
/// extender's interface, `None` when loaded without one. Returns the
/// plugin's record when the plugin accepts, `None` when it refuses.
pub fn plugin_query(nvse_version: Option<u32>) -> (r: Option<PluginInfo>)
    ensures
        r is Some <==> accepts(nvse_version),
        r matches Some(info) ==> is_bridge_info(info),
{
    if let Some(v) = nvse_version {
        if v < PLUGIN_INTERFACE_VERSION {
            return None;
        }
    }
    let name = "Ashfall Bridge";
    proof {
        reveal_strlit("Ashfall Bridge");
    }
    Some(PluginInfo::new(name, 1))
}

} // verus!
