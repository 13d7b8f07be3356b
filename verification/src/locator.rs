use vstd::prelude::*;
use vstd::std_specs::iter::IteratorSpec;
use crate::manifest::DynamicObject;

verus! {

broadcast use vstd::string::axiom_spec_iter, vstd::string::next_postcondition;

/// Relies on std's String::push: appends the given character to the end of
/// the string.
pub assume_specification[ String::push ](s: &mut String, c: char)
    ensures
        final(s)@ == old(s)@.push(c),
;

/// The decoded object carries no type descriptor, so no addressable resource
/// endpoint can be resolved for it.
#[derive(Debug)]
pub struct UnknownObject {
    pub object: DynamicObject,
}

/// Whether a resolved endpoint addresses the whole cluster or one namespace.
#[derive(Debug)]
pub enum ScopeRef {
    Cluster,
    Namespaced { namespace: String },
}

/// The resolved, addressable endpoint for one object type: its fully
/// qualified type identity together with its namespace scope.
#[derive(Debug)]
pub struct ResourceHandle {
    pub group: String,
    pub version: String,
    pub kind: String,
    pub scope: ScopeRef,
}

/// The position of the first `/` in the string, if any.
pub open spec fn first_slash(s: Seq<char>) -> Option<int>
    decreases s.len(),
{
    if s.len() == 0 {
        None
    } else if s[0] == '/' {
        Some(0int)
    } else {
        match first_slash(s.drop_first()) {
            None => None,
            Some(i) => Some(i + 1),
        }
    }
}

/// The group part of an `apiVersion` string: what stands before the first
/// `/`, or the empty (core) group when there is no `/`.
pub open spec fn gv_group(s: Seq<char>) -> Seq<char> {
    match first_slash(s) {
        None => Seq::empty(),
        Some(i) => s.take(i),
    }
}

/// The version part of an `apiVersion` string: what stands after the first
/// `/`, or the whole string when there is no `/`.
pub open spec fn gv_version(s: Seq<char>) -> Seq<char> {
    match first_slash(s) {
        None => s,
        Some(i) => s.skip(i + 1),
    }
}

proof fn lemma_first_slash_none(s: Seq<char>)
    requires
        forall|i: int| 0 <= i < s.len() ==> s[i] != '/',
    ensures
        first_slash(s) is None,
    decreases s.len(),
{
    if s.len() > 0 {
        lemma_first_slash_none(s.drop_first());
    }
}

proof fn lemma_first_slash_at(g: Seq<char>, v: Seq<char>)
    requires
        forall|i: int| 0 <= i < g.len() ==> g[i] != '/',
    ensures
        first_slash(g + seq!['/'] + v) == Some(g.len() as int),
    decreases g.len(),
{
    let s = g + seq!['/'] + v;
    if g.len() == 0 {
        assert(s[0] == '/');
    } else {
        lemma_first_slash_at(g.drop_first(), v);
        assert(s.drop_first() =~= g.drop_first() + seq!['/'] + v);
        assert(s[0] == g[0]);
    }
}

/// Splits an `apiVersion` string at its first `/` into group and version;
/// with no `/` the whole string is the version and the group is the empty
/// core group.
pub fn split_group_version(s: &str) -> (r: (String, String))
    ensures
        r.0@ == gv_group(s@),
        r.1@ == gv_version(s@),
{
    let mut head: String = String::new();
    let mut tail: String = String::new();
    let mut seen: bool = false;
    let mut it = s.chars();
    let ghost mut done: Seq<char> = Seq::empty();
    loop
        invariant
            done + it.remaining() =~= s@,
            !seen ==> head@ == done && tail@ == Seq::<char>::empty(),
            seen ==> done =~= head@ + seq!['/'] + tail@,
            forall|i: int| 0 <= i < head@.len() ==> head@[i] != '/',
            it.obeys_prophetic_iter_laws(),
            it.decrease() is Some,
        ensures
            it.remaining().len() == 0,
            done + it.remaining() =~= s@,
            !seen ==> head@ == done && tail@ == Seq::<char>::empty(),
            seen ==> done =~= head@ + seq!['/'] + tail@,
            forall|i: int| 0 <= i < head@.len() ==> head@[i] != '/',
        decreases it.decrease()->0,
    {
        match it.next() {
            None => {
                break;
            },
            Some(c) => {
                if seen {
                    tail.push(c);
                } else if c == '/' {
                    seen = true;
                } else {
                    head.push(c);
                }
                proof {
                    done = done.push(c);
                    assert(done + it.remaining() =~= s@);
                    if seen {
                        assert(done =~= head@ + seq!['/'] + tail@);
                    }
                }
            },
        }
    }
    proof {
        assert(done =~= s@);
    }
    if seen {
        proof {
            assert(s@ == head@ + seq!['/'] + tail@);
            lemma_first_slash_at(head@, tail@);
            assert(s@.take(head@.len() as int) =~= head@);
            assert(s@.skip(head@.len() as int + 1) =~= tail@);
        }
        (head, tail)
    } else {
        proof {
            lemma_first_slash_none(s@);
        }
        (String::new(), head)
    }
}

/// Whether the handle's scope matches the object's namespace: an object with
/// a namespace is namespace-scoped to it, one without is cluster-scoped.
pub open spec fn scope_matches(object: DynamicObject, scope: ScopeRef) -> bool {
    match object.namespace {
        Some(ns) => scope matches ScopeRef::Namespaced { namespace } && namespace@ == ns@,
        None => scope is Cluster,
    }
}

/// Resource Locator: resolves the addressable endpoint for a decoded object
/// from its type descriptor alone, or fails when the descriptor is absent.
/// The `apiVersion` string is split into group and version (no `/` means the
/// core group), and the object's namespace decides the scope.
pub fn locate(object: &DynamicObject) -> (r: Result<ResourceHandle, UnknownObject>)
    ensures
        r is Ok <==> object.types is Some,
        object.types is None ==> (r matches Err(u) && u.object == *object),
        object.types matches Some(t) ==> r matches Ok(h) && {
            &&& h.group@ == gv_group(t.api_version@)
            &&& h.version@ == gv_version(t.api_version@)
            &&& h.kind@ == t.kind@
            &&& scope_matches(*object, h.scope)
        },
{
    match &object.types {
        None => Err(UnknownObject { object: object.duplicate() }),
        Some(t) => {
            let (group, version) = split_group_version(t.api_version.as_str());
            let scope = match &object.namespace {
                Some(ns) => ScopeRef::Namespaced { namespace: ns.clone() },
                None => ScopeRef::Cluster,
            };
            Ok(ResourceHandle { group, version, kind: t.kind.clone(), scope })
        },
    }
}

impl ScopeRef {
    /// An exact copy of this scope.
    pub fn duplicate(&self) -> (r: ScopeRef)
        ensures
            r == *self,
    {
        match self {
            ScopeRef::Cluster => ScopeRef::Cluster,
            ScopeRef::Namespaced { namespace } => ScopeRef::Namespaced {
                namespace: namespace.clone(),
            },
        }
    }
}

impl ResourceHandle {
    /// An exact copy of this handle.
    pub fn duplicate(&self) -> (r: ResourceHandle)
        ensures
            r == *self,
    {
        ResourceHandle {
            group: self.group.clone(),
            version: self.version.clone(),
            kind: self.kind.clone(),
            scope: self.scope.duplicate(),
        }
    }
}

} // verus!
