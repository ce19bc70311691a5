//! Access control in front of the orchestrator: which caller may reach
//! which entry point.
//!
//! Each entry point asks for one capability. Entry points that are open to
//! everyone, and those that are meant for shared units and check the
//! caller's identity themselves, are open to any caller. All others are
//! open only to a controller: the orchestrator itself, the identity that
//! deployed it and, where one was configured, an administrator.

use crate::principal::{list_contains, principal_text, Principal};
use vstd::string::StringExecFns;
use vstd::prelude::*;

verus! {

/// What an entry point asks of its caller.
#[derive(Clone, Copy, Debug, PartialEq, Eq, Structural, Hash)]
pub enum Capability {
    /// Nothing: anyone may call.
    Public,
    /// The caller must be a known shared unit; the entry point checks it.
    KnownUnit,
    /// The caller must be a controller, which is checked before the entry
    /// point runs.
    Privileged,
}

/// The capability each entry point asks for, by its name.
pub open spec fn capability_of(method: Seq<char>) -> Capability {
    if method == "get_shared_vault"@ {
        Capability::Public
    } else if method == "notify_canister_at_capacity"@ || method == "register_shared_vault_user"@
        || method == "top_up"@ {
        Capability::KnownUnit
    } else {
        Capability::Privileged
    }
}

/// The capability that the entry point `method` asks for.
pub fn required_capability(method: &str) -> (capability: Capability)
    ensures
        capability == capability_of(method@),
{
    let name = method.to_owned();
    if name == "get_shared_vault".to_owned() {
        Capability::Public
    } else if name == "notify_canister_at_capacity".to_owned() || name
        == "register_shared_vault_user".to_owned() || name == "top_up".to_owned() {
        Capability::KnownUnit
    } else {
        Capability::Privileged
    }
}

/// The identities that count as controllers.
pub struct Controllers {
    list: Vec<Principal>,
}

impl View for Controllers {
    type V = Seq<Principal>;

    closed spec fn view(&self) -> Seq<Principal> {
        self.list@
    }
}

/// Whether `caller` may reach the entry point `method` when `controllers`
/// are the controllers.
pub open spec fn passes(controllers: Seq<Principal>, caller: Principal, method: Seq<char>) -> bool {
    controllers.contains(caller) || capability_of(method) != Capability::Privileged
}

/// What a caller whose identity reads `caller_text` is told when it is
/// turned away.
pub open spec fn refusal_text(caller_text: Seq<char>) -> Seq<char> {
    "Unauthorized caller: "@ + caller_text
}

/// The message for a caller that is turned away, from the text of its
/// identity.
pub fn refusal_message(caller_text: &str) -> (message: String)
    ensures
        message@ == refusal_text(caller_text@),
{
    "Unauthorized caller: ".to_owned().concat(caller_text)
}

/// The controllers once the orchestrator has been deployed by `deployer`,
/// with or without an administrator.
pub open spec fn with_deployer(
    controllers: Seq<Principal>,
    deployer: Principal,
    admin: Option<Principal>,
) -> Seq<Principal> {
    match admin {
        Some(a) => controllers.push(deployer).push(a),
        None => controllers.push(deployer),
    }
}

impl Controllers {
    /// The controllers of an orchestrator that is its own and only
    /// controller.
    pub fn new(orchestrator: Principal) -> (set: Controllers)
        ensures
            set@ == seq![orchestrator],
    {
        let mut controllers: Vec<Principal> = Vec::new();
        controllers.push(orchestrator);
        assert(controllers@ =~= seq![orchestrator]);
        Controllers { list: controllers }
    }

    /// Makes `deployer` a controller and, after it, the administrator, if
    /// one is given.
    pub fn init(&mut self, deployer: Principal, admin: Option<Principal>)
        ensures
            final(self)@ == with_deployer(old(self)@, deployer, admin),
    {
        self.list.push(deployer);
        match admin {
            Some(a) => {
                self.list.push(a);
            },
            None => {},
        }
    }

    /// The controllers, in the order they were added.
    pub fn as_list(&self) -> (list: &Vec<Principal>)
        ensures
            list@ == self@,
    {
        &self.list
    }

    /// Whether `caller` is a controller.
    pub fn is_controller(&self, caller: &Principal) -> (r: bool)
        ensures
            r == self@.contains(*caller),
    {
        list_contains(&self.list, caller)
    }

    /// Whether `caller` may reach the entry point `method`: a controller
    /// may reach every entry point, anyone else those that do not ask for
    /// a controller.
    pub fn admits(&self, caller: &Principal, method: &str) -> (r: bool)
        ensures
            r == passes(self@, *caller, method@),
    {
        if self.is_controller(caller) {
            return true;
        }
        match required_capability(method) {
            Capability::Privileged => false,
            _ => true,
        }
    }

    /// Lets `caller` through to the entry point `method`, or turns it away
    /// with a message that names it.
    pub fn check(&self, caller: &Principal, method: &str) -> (r: Result<(), String>)
        ensures
            passes(self@, *caller, method@) ==> r is Ok,
            !passes(self@, *caller, method@) ==> (r matches Err(message) && message@
                == refusal_text(principal_text(caller@))),
    {
        if self.admits(caller, method) {
            Ok(())
        } else {
            let text = caller.to_text();
            Err(refusal_message(text.as_str()))
        }
    }
}

} // verus!
