//! What boot does to the kernel's bookkeeping: the core services it
//! registers, in order.

use vstd::prelude::*;
use crate::registry::{Registry, ServiceView, registered};

verus! {

/// The kernel's core services as (name, version), in the order boot
/// registers them.
pub open spec fn core_services() -> Seq<(Seq<char>, Seq<char>)> {
    seq![
        ("Logger"@, "0.1.0"@),
        ("Registry"@, "0.1.0"@),
        ("EventBus"@, "0.1.0"@),
        ("Scheduler"@, "0.1.0"@),
        ("StateManager"@, "0.1.0"@),
        ("Security"@, "0.1.0"@),
        ("Health"@, "0.1.0"@),
        ("MissionScheduler"@, "0.1.0"@),
        ("MissionExecutor"@, "0.1.0"@),
    ]
}

/// `s` after registering each service of `list` in turn.
pub open spec fn registered_in_turn(s: Seq<ServiceView>, list: Seq<(Seq<char>, Seq<char>)>) -> Seq<ServiceView>
    decreases list.len(),
{
    if list.len() == 0 {
        s
    } else {
        registered(registered_in_turn(s, list.drop_last()), list.last().0, list.last().1)
    }
}

proof fn lemma_register_step(s: Seq<ServiceView>, list: Seq<(Seq<char>, Seq<char>)>, k: int)
    requires
        0 <= k < list.len(),
    ensures
        registered_in_turn(s, list.take(k + 1)) == registered(
            registered_in_turn(s, list.take(k)),
            list[k].0,
            list[k].1,
        ),
{
    assert(list.take(k + 1).drop_last() =~= list.take(k));
}

/// Registers the kernel's core services, each `INITIALIZING`, in the order
/// of `core_services`.
pub fn register_core_services(registry: &mut Registry)
    ensures
        final(registry)@ == registered_in_turn(old(registry)@, core_services()),
{
    let ghost s0 = registry@;
    proof {
        assert(core_services().take(0) =~= Seq::<(Seq<char>, Seq<char>)>::empty());
    }
    registry.register("Logger", "0.1.0");
    proof {
        lemma_register_step(s0, core_services(), 0);
        assert(registry@ == registered_in_turn(s0, core_services().take(1)));
    }
    registry.register("Registry", "0.1.0");
    proof {
        lemma_register_step(s0, core_services(), 1);
        assert(registry@ == registered_in_turn(s0, core_services().take(2)));
    }
    registry.register("EventBus", "0.1.0");
    proof {
        lemma_register_step(s0, core_services(), 2);
        assert(registry@ == registered_in_turn(s0, core_services().take(3)));
    }
    registry.register("Scheduler", "0.1.0");
    proof {
        lemma_register_step(s0, core_services(), 3);
        assert(registry@ == registered_in_turn(s0, core_services().take(4)));
    }
    registry.register("StateManager", "0.1.0");
    proof {
        lemma_register_step(s0, core_services(), 4);
        assert(registry@ == registered_in_turn(s0, core_services().take(5)));
    }
    registry.register("Security", "0.1.0");
    proof {
        lemma_register_step(s0, core_services(), 5);
        assert(registry@ == registered_in_turn(s0, core_services().take(6)));
    }
    registry.register("Health", "0.1.0");
    proof {
        lemma_register_step(s0, core_services(), 6);
        assert(registry@ == registered_in_turn(s0, core_services().take(7)));
    }
    registry.register("MissionScheduler", "0.1.0");
    proof {
        lemma_register_step(s0, core_services(), 7);
        assert(registry@ == registered_in_turn(s0, core_services().take(8)));
    }
    registry.register("MissionExecutor", "0.1.0");
    proof {
        lemma_register_step(s0, core_services(), 8);
        assert(registry@ == registered_in_turn(s0, core_services().take(9)));
    }
    proof {
        assert(core_services().take(9) =~= core_services());
    }
}

} // verus!
