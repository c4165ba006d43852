//! Composed keys, the proxy that addresses one of them, and the root of the
//! parameters of the call at hand.

use vstd::prelude::*;
use vstd::slice::slice_to_vec;
use vstd::string::*;
use crate::endian::lemma_u64_from_le_bytes_of;
use crate::endian::u64_from_le_bytes;
use crate::endian::u64_le_bytes;
use crate::endian::u64_to_le;
use crate::keyspace::KeySpace;

verus! {

/// One segment as it stands inside a key: its length in eight bytes, the
/// least significant first, and then its bytes.
pub open spec fn segment_bytes(seg: Seq<u8>) -> Seq<u8> {
    u64_le_bytes(seg.len() as u64) + seg
}

/// The key of the child reached from `parent` by `seg`.
pub open spec fn child_key(parent: Seq<u8>, seg: Seq<u8>) -> Seq<u8> {
    parent + segment_bytes(seg)
}

/// The segments of a path, one after the other.
pub open spec fn path_bytes(path: Seq<Seq<u8>>) -> Seq<u8>
    decreases path.len(),
{
    if path.len() == 0 {
        Seq::empty()
    } else {
        segment_bytes(path.first()) + path_bytes(path.drop_first())
    }
}

/// The key reached from `root` by following `path`.
pub open spec fn composed_key(root: Seq<u8>, path: Seq<Seq<u8>>) -> Seq<u8> {
    root + path_bytes(path)
}

/// Every segment of the path is short enough for its length to be written
/// in eight bytes.
pub open spec fn path_fits(path: Seq<Seq<u8>>) -> bool {
    forall|i: int| 0 <= i < path.len() ==> (#[trigger] path[i]).len() <= u64::MAX
}

/// A segment can be read back from the front of what follows it: two
/// segments followed by anything give the same bytes only if they are the
/// same segment followed by the same thing.
pub proof fn lemma_segment_prefix_free(a: Seq<u8>, x: Seq<u8>, b: Seq<u8>, y: Seq<u8>)
    requires
        a.len() <= u64::MAX,
        b.len() <= u64::MAX,
        segment_bytes(a) + x == segment_bytes(b) + y,
    ensures
        a == b,
        x == y,
{
    lemma_u64_from_le_bytes_of(a.len() as u64);
    lemma_u64_from_le_bytes_of(b.len() as u64);
    let la = u64_le_bytes(a.len() as u64);
    let lb = u64_le_bytes(b.len() as u64);
    let left = segment_bytes(a) + x;
    let right = segment_bytes(b) + y;
    assert(la =~= left.subrange(0, 8));
    assert(lb =~= right.subrange(0, 8));
    assert(u64_from_le_bytes(la) == a.len() as u64);
    assert(u64_from_le_bytes(lb) == b.len() as u64);
    assert(a.len() == b.len());
    assert(a =~= left.subrange(8, 8 + a.len() as int));
    assert(b =~= right.subrange(8, 8 + b.len() as int));
    assert(x =~= left.subrange(8 + a.len() as int, left.len() as int));
    assert(y =~= right.subrange(8 + b.len() as int, right.len() as int));
}

/// Two paths give the same bytes only if they are the same path.
pub proof fn lemma_path_injective(p: Seq<Seq<u8>>, q: Seq<Seq<u8>>)
    requires
        path_fits(p),
        path_fits(q),
        path_bytes(p) == path_bytes(q),
    ensures
        p == q,
    decreases p.len(),
{
    if p.len() == 0 {
        if q.len() != 0 {
            assert(path_bytes(q).len() >= segment_bytes(q.first()).len());
            assert(false);
        }
        assert(p =~= q);
    } else if q.len() == 0 {
        assert(path_bytes(p).len() >= segment_bytes(p.first()).len());
        assert(false);
    } else {
        assert(p.first() == p[0] && q.first() == q[0]);
        assert forall|i: int| 0 <= i < p.drop_first().len() implies (#[trigger] p.drop_first()[i]).len()
            <= u64::MAX by {
            assert(p.drop_first()[i] == p[i + 1]);
        }
        assert forall|i: int| 0 <= i < q.drop_first().len() implies (#[trigger] q.drop_first()[i]).len()
            <= u64::MAX by {
            assert(q.drop_first()[i] == q[i + 1]);
        }
        lemma_segment_prefix_free(
            p.first(),
            path_bytes(p.drop_first()),
            q.first(),
            path_bytes(q.drop_first()),
        );
        lemma_path_injective(p.drop_first(), q.drop_first());
        assert(p =~= seq![p.first()] + p.drop_first());
        assert(q =~= seq![q.first()] + q.drop_first());
    }
}

/// No collision: from one root, two different paths never reach the same
/// key. A key and the key of any of its descendants differ in particular.
pub proof fn lemma_no_key_collision(root: Seq<u8>, p: Seq<Seq<u8>>, q: Seq<Seq<u8>>)
    requires
        path_fits(p),
        path_fits(q),
        p != q,
    ensures
        composed_key(root, p) != composed_key(root, q),
{
    if composed_key(root, p) == composed_key(root, q) {
        let k = composed_key(root, p);
        assert(path_bytes(p) =~= k.subrange(root.len() as int, k.len() as int));
        assert(path_bytes(q) =~= k.subrange(root.len() as int, k.len() as int));
        lemma_path_injective(p, q);
    }
}

/// The bytes of a path with one more segment at its end.
pub proof fn lemma_path_bytes_push(p: Seq<Seq<u8>>, seg: Seq<u8>)
    ensures
        path_bytes(p.push(seg)) == path_bytes(p) + segment_bytes(seg),
    decreases p.len(),
{
    if p.len() == 0 {
        assert(p.push(seg).drop_first() =~= Seq::<Seq<u8>>::empty());
        assert(path_bytes(p.push(seg).drop_first()) =~= Seq::<u8>::empty());
        assert(path_bytes(p.push(seg)) =~= path_bytes(p) + segment_bytes(seg));
    } else {
        assert(p.push(seg).drop_first() =~= p.drop_first().push(seg));
        assert(p.push(seg).first() == p.first());
        lemma_path_bytes_push(p.drop_first(), seg);
        assert(path_bytes(p.push(seg)) =~= path_bytes(p) + segment_bytes(seg));
    }
}

/// Deriving a child is following the path by one more segment.
pub proof fn lemma_child_extends_path(root: Seq<u8>, p: Seq<Seq<u8>>, seg: Seq<u8>)
    ensures
        child_key(composed_key(root, p), seg) == composed_key(root, p.push(seg)),
{
    lemma_path_bytes_push(p, seg);
    assert(child_key(composed_key(root, p), seg) =~= composed_key(root, p.push(seg)));
}

/// Two different segments lead from one parent to two different children.
pub proof fn lemma_children_differ(parent: Seq<u8>, a: Seq<u8>, b: Seq<u8>)
    requires
        a.len() <= u64::MAX,
        b.len() <= u64::MAX,
        a != b,
    ensures
        child_key(parent, a) != child_key(parent, b),
{
    if child_key(parent, a) == child_key(parent, b) {
        let k = child_key(parent, a);
        let rest = k.subrange(parent.len() as int, k.len() as int);
        assert(segment_bytes(a) + Seq::<u8>::empty() =~= rest);
        assert(segment_bytes(b) + Seq::<u8>::empty() =~= rest);
        lemma_segment_prefix_free(a, Seq::empty(), b, Seq::empty());
    }
}

/// A child never has the key of its parent.
pub proof fn lemma_child_differs_from_parent(parent: Seq<u8>, seg: Seq<u8>)
    ensures
        child_key(parent, seg) != parent,
{
    assert(child_key(parent, seg).len() == parent.len() + 8 + seg.len());
}

/// A handle on one location of a key space: the composed key, and nothing
/// else. Its view is that key.
pub struct Proxy {
    key: Vec<u8>,
}

impl Clone for Proxy {
    fn clone(&self) -> (r: Proxy)
        ensures
            r@ == self@,
    {
        Proxy { key: slice_to_vec(self.key.as_slice()) }
    }
}

impl View for Proxy {
    type V = Seq<u8>;

    closed spec fn view(&self) -> Seq<u8> {
        self.key@
    }
}

impl Proxy {
    /// The proxy that addresses `key`.
    pub fn new(key: Vec<u8>) -> (r: Proxy)
        ensures
            r@ == key@,
    {
        Proxy { key }
    }

    /// The composed key.
    pub fn key(&self) -> (r: &[u8])
        ensures
            r@ == self@,
    {
        self.key.as_slice()
    }

    /// The proxy of the child that `segment` names. `self` stays as it is.
    /// A child has a name: the segment is not empty.
    pub fn root(&self, segment: &str) -> (r: Proxy)
        requires
            segment@.len() > 0,
        ensures
            r@ == child_key(self@, segment.spec_bytes()),
    {
        let seg = segment.as_bytes();
        let mut key = slice_to_vec(self.key.as_slice());
        let mut prefix = u64_to_le(seg.len() as u64);
        let mut tail = slice_to_vec(seg);
        key.append(&mut prefix);
        key.append(&mut tail);
        assert(key@ =~= child_key(self@, segment.spec_bytes()));
        Proxy { key }
    }

    /// One read of the key space at the composed key.
    pub fn get_bytes(&self, ks: &KeySpace) -> (r: Option<Vec<u8>>)
        requires
            ks.wf(),
        ensures
            match r {
                Some(v) => ks@.contains_key(self@) && ks@[self@] == v@,
                None => !ks@.contains_key(self@),
            },
    {
        ks.read(self.key.as_slice())
    }

    /// One write of the key space at the composed key.
    pub fn set_bytes(&self, ks: &mut KeySpace, bytes: &[u8])
        requires
            old(ks).wf(),
        ensures
            final(ks).wf(),
            final(ks)@ == old(ks)@.insert(self@, bytes@),
    {
        ks.write(self.key.as_slice(), bytes);
    }

    /// Whether the composed key holds a value: whether it was written, and
    /// not deleted since.
    pub fn is_present(&self, ks: &KeySpace) -> (r: bool)
        requires
            ks.wf(),
        ensures
            r == ks@.contains_key(self@),
    {
        ks.is_present(self.key.as_slice())
    }

    /// Takes the value at the composed key away.
    pub fn delete(&self, ks: &mut KeySpace)
        requires
            old(ks).wf(),
        ensures
            final(ks).wf(),
            final(ks)@ == old(ks)@.remove(self@),
    {
        ks.delete(self.key.as_slice());
    }
}

/// The call at hand, as far as the parameters need it: the root key of its
/// parameter namespace while a call is active, nothing otherwise.
pub struct CallContext {
    params_root: Option<Vec<u8>>,
}

impl CallContext {
    /// Whether a call is active.
    pub closed spec fn active(&self) -> bool {
        self.params_root is Some
    }

    /// The root key of the parameters of the active call.
    pub closed spec fn params_root(&self) -> Seq<u8>
        recommends
            self.active(),
    {
        self.params_root.unwrap()@
    }

    /// The context on entry of a call whose parameters live under
    /// `params_root`.
    pub fn enter(params_root: Vec<u8>) -> (r: CallContext)
        ensures
            r.active(),
            r.params_root() == params_root@,
    {
        CallContext { params_root: Some(params_root) }
    }

    /// The context while no call is active.
    pub fn idle() -> (r: CallContext)
        ensures
            !r.active(),
    {
        CallContext { params_root: None }
    }

    /// Tears the context down on return from the call.
    pub fn leave(&mut self)
        ensures
            !final(self).active(),
    {
        self.params_root = None;
    }

    /// Whether a call is active.
    pub fn is_active(&self) -> (r: bool)
        ensures
            r == self.active(),
    {
        self.params_root.is_some()
    }
}

/// The proxy rooted at the parameters of the active call. There is none
/// outside a call: the caller has to be inside one.
pub fn params_proxy(ctx: &CallContext) -> (r: Proxy)
    requires
        ctx.active(),
    ensures
        r@ == ctx.params_root(),
{
    match &ctx.params_root {
        Some(root) => Proxy { key: slice_to_vec(root.as_slice()) },
        None => Proxy { key: Vec::new() },
    }
}

} // verus!
