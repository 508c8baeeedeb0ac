use vstd::prelude::*;

verus! {

/// A native object that the context owns and must release.
#[derive(Clone, Copy, Debug, PartialEq, Eq, Structural)]
pub enum Resource {
    DebugMessenger,
    Device,
    Instance,
}

/// Which native objects have been created so far.
#[derive(Clone, Copy, Debug, PartialEq, Eq, Structural)]
pub struct CreatedResources {
    pub messenger: bool,
    pub device: bool,
    pub instance: bool,
}

/// Release order: messenger, then device, then instance, each only if it
/// was created.
pub open spec fn teardown_order(c: CreatedResources) -> Seq<Resource> {
    (if c.messenger {
        seq![Resource::DebugMessenger]
    } else {
        seq![]
    }) + (if c.device {
        seq![Resource::Device]
    } else {
        seq![]
    }) + (if c.instance {
        seq![Resource::Instance]
    } else {
        seq![]
    })
}

/// Every `a` in `plan` stands before every `b`.
pub open spec fn released_before(plan: Seq<Resource>, a: Resource, b: Resource) -> bool {
    forall|i: int, j: int|
        0 <= i < plan.len() && 0 <= j < plan.len() && plan[i] == a && plan[j] == b ==> i < j
}

pub open spec fn released_once_if_created(plan: Seq<Resource>, r: Resource, created: bool) -> bool {
    &&& created ==> exists|i: int| 0 <= i < plan.len() && plan[i] == r
    &&& !created ==> forall|i: int| 0 <= i < plan.len() ==> plan[i] != r
    &&& forall|i: int, j: int|
        0 <= i < plan.len() && 0 <= j < plan.len() && plan[i] == r && plan[j] == r ==> i == j
}

impl CreatedResources {
    pub fn none() -> (r: CreatedResources)
        ensures
            !r.messenger && !r.device && !r.instance,
    {
        CreatedResources { messenger: false, device: false, instance: false }
    }
}

/// The ordered list of objects to release for what has been created.
pub fn teardown_plan(created: CreatedResources) -> (r: Vec<Resource>)
    ensures
        r@ == teardown_order(created),
{
    let mut plan: Vec<Resource> = Vec::new();
    if created.messenger {
        plan.push(Resource::DebugMessenger);
    }
    let ghost first = plan@;
    if created.device {
        plan.push(Resource::Device);
    }
    let ghost second = plan@;
    assert(second =~= first + (if created.device {
        seq![Resource::Device]
    } else {
        seq![]
    }));
    if created.instance {
        plan.push(Resource::Instance);
    }
    assert(plan@ =~= teardown_order(created));
    plan
}

/// Whatever was created, the debug messenger and the logical device are
/// released before the instance, and each object that was created is
/// released exactly once while nothing else is.
pub proof fn teardown_respects_ownership(created: CreatedResources)
    ensures
        released_before(teardown_order(created), Resource::DebugMessenger, Resource::Instance),
        released_before(teardown_order(created), Resource::Device, Resource::Instance),
        released_before(teardown_order(created), Resource::DebugMessenger, Resource::Device),
        released_once_if_created(teardown_order(created), Resource::DebugMessenger, created.messenger),
        released_once_if_created(teardown_order(created), Resource::Device, created.device),
        released_once_if_created(teardown_order(created), Resource::Instance, created.instance),
{
    let plan = teardown_order(created);
    let m: int = if created.messenger { 1 } else { 0 };
    let d: int = if created.device { 1 } else { 0 };
    assert(plan.len() == m + d + (if created.instance { 1int } else { 0int }));
    assert forall|i: int| 0 <= i < plan.len() implies {
        &&& (plan[i] == Resource::DebugMessenger <==> i < m)
        &&& (plan[i] == Resource::Device <==> m <= i < m + d)
        &&& (plan[i] == Resource::Instance <==> m + d <= i)
    } by {
        if i < m {
            assert(plan[i] == Resource::DebugMessenger);
        } else if i < m + d {
            assert(plan[i] == Resource::Device);
        } else {
            assert(plan[i] == Resource::Instance);
        }
    }
    if created.messenger {
        assert(plan[0] == Resource::DebugMessenger);
    }
    if created.device {
        assert(plan[m] == Resource::Device);
    }
    if created.instance {
        assert(plan[m + d] == Resource::Instance);
    }
}

} // verus!
