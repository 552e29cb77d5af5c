//! Liveness of host objects, checked before every call through an object handle.
use vstd::prelude::*;
use crate::variant::InstanceId;
use crate::call_error::CallFailure;

verus! {

/// The host objects that the extension has observed and that the host has not
/// destroyed since.
pub struct ObjectTable {
    live: Vec<u64>,
}

impl View for ObjectTable {
    type V = Set<u64>;

    closed spec fn view(&self) -> Set<u64> {
        Set::new(|x: u64| self.live@.contains(x))
    }
}

impl ObjectTable {
    /// A table with no live object.
    pub fn new() -> (r: ObjectTable)
        ensures
            r@ == Set::<u64>::empty(),
    {
        let r = ObjectTable { live: Vec::new() };
        assert(r@ =~= Set::<u64>::empty());
        r
    }

    /// Records that the host object `id` exists.
    pub fn register(&mut self, id: InstanceId)
        ensures
            final(self)@ == old(self)@.insert(id.id),
    {
        self.live.push(id.id);
        assert forall|y: u64| self.live@.contains(y) <==> (old(self).live@.contains(y) || y == id.id) by {
            lemma_contains_push(old(self).live@, id.id, y);
        }
        assert(self@ =~= old(self)@.insert(id.id));
    }

    /// Records that the host has destroyed the object `id`.
    pub fn mark_destroyed(&mut self, id: InstanceId)
        ensures
            final(self)@ == old(self)@.remove(id.id),
    {
        let mut kept: Vec<u64> = Vec::new();
        let mut i: usize = 0;
        while i < self.live.len()
            invariant
                i <= self.live@.len(),
                forall|x: u64|
                    kept@.contains(x) <==> (self.live@.subrange(0, i as int).contains(x) && x
                        != id.id),
            decreases self.live.len() - i,
        {
            let x = self.live[i];
            let ghost before = kept@;
            if x != id.id {
                kept.push(x);
            }
            proof {
                let p = self.live@.subrange(0, i as int);
                assert(self.live@.subrange(0, i + 1) =~= p.push(x));
                assert forall|y: u64|
                    kept@.contains(y) <==> (p.push(x).contains(y) && y != id.id) by {
                    lemma_contains_push(p, x, y);
                    if x != id.id {
                        lemma_contains_push(before, x, y);
                    }
                }
            }
            i = i + 1;
        }
        proof {
            assert(self.live@.subrange(0, self.live@.len() as int) =~= self.live@);
        }
        self.live = kept;
        assert(self@ =~= old(self)@.remove(id.id));
    }

    /// Whether the host object `id` is still alive.
    pub fn is_alive(&self, id: InstanceId) -> (r: bool)
        ensures
            r == self@.contains(id.id),
    {
        let mut i: usize = 0;
        while i < self.live.len()
            invariant
                i <= self.live@.len(),
                forall|k: int| 0 <= k < i ==> self.live@[k] != id.id,
            decreases self.live.len() - i,
        {
            if self.live[i] == id.id {
                return true;
            }
            i = i + 1;
        }
        false
    }
}

proof fn lemma_contains_push(s: Seq<u64>, x: u64, y: u64)
    ensures
        s.push(x).contains(y) <==> (s.contains(y) || y == x),
{
    if s.contains(y) {
        let k = choose|k: int| 0 <= k < s.len() && s[k] == y;
        assert(s.push(x)[k] == y);
    }
    if y == x {
        assert(s.push(x)[s.len() as int] == y);
    }
    if s.push(x).contains(y) && y != x {
        let k = choose|k: int| 0 <= k < s.len() + 1 && s.push(x)[k] == y;
        assert(s[k] == y);
    }
}

/// Confirms, before a call of `method_name` through the handle `instance_id`,
/// that the host object still lives; a destroyed one gives the stale-handle failure.
pub fn ensure_object_alive(objects: &ObjectTable, instance_id: InstanceId, method_name: &str) -> (r:
    Result<(), CallFailure>)
    ensures
        r is Ok <==> objects@.contains(instance_id.id),
        r matches Err(f) ==> (f matches CallFailure::StaleHandle { method, instance } && method@
            == method_name@ && instance == instance_id),
{
    if objects.is_alive(instance_id) {
        Ok(())
    } else {
        Err(CallFailure::StaleHandle { method: String::from_str(method_name), instance: instance_id })
    }
}

} // verus!
