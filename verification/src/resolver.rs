use vstd::prelude::*;

use crate::model::{bytes_eq, copy_bytes, CompiledModule, CompiledModuleV, ModuleHandle};

verus! {

// Module resolution: matching the module handles a script declares
// against a caller-supplied set of candidate modules.
//
// A declared handle and a candidate match exactly when the handle's
// (address bytes, name bytes), resolved through the script's own
// pools, equal the candidate's self identity, resolved through the
// candidate's own pools.  When several candidates claim the same
// identity, the last one in supply order wins, silently; this is a
// deliberate design choice that keeps resolution total.  Declared
// handles that no candidate matches are simply absent from the
// result; that is not an error at resolution time.

/// The (address bytes, name bytes) a handle denotes through the given
/// pools, or `None` when one of its indices is out of range.
pub open spec fn resolved_key(
    h: ModuleHandle,
    idents: Seq<Seq<u8>>,
    addrs: Seq<Seq<u8>>,
) -> Option<(Seq<u8>, Seq<u8>)> {
    if h.address < addrs.len() && h.name < idents.len() {
        Some((addrs[h.address as int], idents[h.name as int]))
    } else {
        None
    }
}

/// The self identity of a module: the key of its distinguished self
/// handle, resolved through the module's own pools.
pub open spec fn module_self_key(m: CompiledModuleV) -> Option<(Seq<u8>, Seq<u8>)> {
    if m.self_module_handle_idx < m.module_handles.len() {
        resolved_key(
            m.module_handles[m.self_module_handle_idx as int],
            m.identifiers,
            m.address_identifiers,
        )
    } else {
        None
    }
}

/// The last candidate in `search` whose self identity equals `key`.
pub open spec fn last_match(
    key: (Seq<u8>, Seq<u8>),
    search: Seq<CompiledModuleV>,
) -> Option<CompiledModuleV>
    decreases search.len(),
{
    if search.len() == 0 {
        None
    } else if module_self_key(search.last()) == Some(key) {
        Some(search.last())
    } else {
        last_match(key, search.drop_last())
    }
}

/// The module a declared handle resolves to: the last candidate whose
/// self identity equals the handle's key, or `None` when the handle's
/// indices are out of range or no candidate matches.
pub open spec fn resolve_handle(
    h: ModuleHandle,
    idents: Seq<Seq<u8>>,
    addrs: Seq<Seq<u8>>,
    search: Seq<CompiledModuleV>,
) -> Option<CompiledModuleV> {
    match resolved_key(h, idents, addrs) {
        Some(key) => last_match(key, search),
        None => None,
    }
}

/// The position of the first entry keyed by `h`, or `None`.
pub open spec fn assoc_slot(
    entries: Seq<(ModuleHandle, CompiledModuleV)>,
    h: ModuleHandle,
) -> Option<int>
    decreases entries.len(),
{
    if entries.len() == 0 {
        None
    } else if entries.first().0 == h {
        Some(0)
    } else {
        match assoc_slot(entries.drop_first(), h) {
            Some(i) => Some(i + 1),
            None => None,
        }
    }
}

/// The module mapped to `h` in an association list, or `None`.
pub open spec fn assoc_lookup(
    entries: Seq<(ModuleHandle, CompiledModuleV)>,
    h: ModuleHandle,
) -> Option<CompiledModuleV> {
    match assoc_slot(entries, h) {
        Some(i) => Some(entries[i].1),
        None => None,
    }
}

/// The resolution mapping built from `handles` left to right on top of
/// `acc`: a handle already present keeps its entry (equal handles
/// always resolve alike), an unmatched handle adds none, a matched
/// handle appends its entry.
pub open spec fn resolution_acc(
    handles: Seq<ModuleHandle>,
    idents: Seq<Seq<u8>>,
    addrs: Seq<Seq<u8>>,
    search: Seq<CompiledModuleV>,
    acc: Seq<(ModuleHandle, CompiledModuleV)>,
) -> Seq<(ModuleHandle, CompiledModuleV)>
    decreases handles.len(),
{
    if handles.len() == 0 {
        acc
    } else {
        let h = handles.first();
        let acc2 = if assoc_slot(acc, h) is Some {
            acc
        } else {
            match resolve_handle(h, idents, addrs, search) {
                Some(m) => acc.push((h, m)),
                None => acc,
            }
        };
        resolution_acc(handles.drop_first(), idents, addrs, search, acc2)
    }
}

/// The complete resolution mapping for a declared handle table.
pub open spec fn resolution(
    handles: Seq<ModuleHandle>,
    idents: Seq<Seq<u8>>,
    addrs: Seq<Seq<u8>>,
    search: Seq<CompiledModuleV>,
) -> Seq<(ModuleHandle, CompiledModuleV)> {
    resolution_acc(handles, idents, addrs, search, Seq::empty())
}

/// A found slot always lies inside the list.
proof fn lemma_assoc_slot_range(entries: Seq<(ModuleHandle, CompiledModuleV)>, h: ModuleHandle)
    ensures
        match assoc_slot(entries, h) {
            Some(i) => 0 <= i < entries.len() && entries[i].0 == h,
            None => true,
        },
    decreases entries.len(),
{
    if entries.len() > 0 {
        lemma_assoc_slot_range(entries.drop_first(), h);
    }
}

/// Appending an entry never disturbs an existing key, and serves a
/// new key only when that key was absent.
proof fn lemma_assoc_push(
    entries: Seq<(ModuleHandle, CompiledModuleV)>,
    k: ModuleHandle,
    m: CompiledModuleV,
    h: ModuleHandle,
)
    ensures
        assoc_slot(entries.push((k, m)), h) == (if assoc_slot(entries, h) is Some {
            assoc_slot(entries, h)
        } else if h == k {
            Some(entries.len() as int)
        } else {
            None::<int>
        }),
        assoc_lookup(entries.push((k, m)), h) == (if assoc_lookup(entries, h) is Some {
            assoc_lookup(entries, h)
        } else if h == k {
            Some(m)
        } else {
            None::<CompiledModuleV>
        }),
    decreases entries.len(),
{
    let p = entries.push((k, m));
    assert(p[entries.len() as int] == (k, m));
    assert(forall|i: int| 0 <= i < entries.len() ==> p[i] == entries[i]);
    lemma_assoc_slot_range(entries, h);
    lemma_assoc_slot_range(p, h);
    if entries.len() == 0 {
        assert(p.first() == (k, m));
        assert(p.drop_first() =~= Seq::<(ModuleHandle, CompiledModuleV)>::empty());
    } else {
        assert(p.first() == entries.first());
        assert(p.drop_first() =~= entries.drop_first().push((k, m)));
        lemma_assoc_push(entries.drop_first(), k, m, h);
        lemma_assoc_slot_range(entries.drop_first(), h);
        if entries.first().0 != h {
            match assoc_slot(entries.drop_first(), h) {
                Some(j) => {
                    assert(entries[j + 1] == entries.drop_first()[j]);
                    assert(assoc_slot(entries, h) == Some(j + 1));
                },
                None => {
                    assert(assoc_slot(entries, h) is None);
                    if h == k {
                        assert(assoc_slot(p.drop_first(), h) == Some(
                            entries.drop_first().len() as int,
                        ));
                        assert(assoc_slot(p, h) == Some(entries.len() as int));
                    }
                },
            }
        }
    }
}

/// The generalized induction behind resolution correctness: growing
/// the mapping over a handle table preserves entries already made,
/// adds the resolved module of every fresh handle that resolves, and
/// adds nothing else.
proof fn lemma_resolution_acc_correct(
    handles: Seq<ModuleHandle>,
    idents: Seq<Seq<u8>>,
    addrs: Seq<Seq<u8>>,
    search: Seq<CompiledModuleV>,
    acc: Seq<(ModuleHandle, CompiledModuleV)>,
    h: ModuleHandle,
)
    requires
        forall|k: ModuleHandle| #[trigger]
            assoc_lookup(acc, k) is Some ==> assoc_lookup(acc, k) == resolve_handle(
                k,
                idents,
                addrs,
                search,
            ),
    ensures
        ({
            let r = resolution_acc(handles, idents, addrs, search, acc);
            &&& (assoc_lookup(acc, h) is Some ==> assoc_lookup(r, h) == assoc_lookup(acc, h))
            &&& (assoc_lookup(acc, h) is None && handles.contains(h) ==> assoc_lookup(r, h)
                == resolve_handle(h, idents, addrs, search))
            &&& (assoc_lookup(acc, h) is None && !handles.contains(h) ==> assoc_lookup(
                r,
                h,
            ) is None)
        }),
    decreases handles.len(),
{
    if handles.len() == 0 {
    } else {
        let h0 = handles.first();
        let acc2 = if assoc_slot(acc, h0) is Some {
            acc
        } else {
            match resolve_handle(h0, idents, addrs, search) {
                Some(m) => acc.push((h0, m)),
                None => acc,
            }
        };
        if assoc_slot(acc, h0) is None {
            match resolve_handle(h0, idents, addrs, search) {
                Some(m) => {
                    assert forall|k: ModuleHandle| #[trigger]
                        assoc_lookup(acc2, k) is Some implies assoc_lookup(acc2, k)
                        == resolve_handle(k, idents, addrs, search) by {
                        lemma_assoc_push(acc, h0, m, k);
                    }
                },
                None => {},
            }
        }
        assert(resolution_acc(handles, idents, addrs, search, acc) == resolution_acc(
            handles.drop_first(),
            idents,
            addrs,
            search,
            acc2,
        ));
        lemma_resolution_acc_correct(handles.drop_first(), idents, addrs, search, acc2, h);
        lemma_assoc_push_cases(acc, acc2, h0, idents, addrs, search, h);
        let r = resolution_acc(handles.drop_first(), idents, addrs, search, acc2);
        if assoc_lookup(acc, h) is Some {
            assert(assoc_lookup(acc2, h) == assoc_lookup(acc, h));
            assert(assoc_lookup(r, h) == assoc_lookup(acc, h));
        } else if assoc_lookup(acc2, h) is Some {
            assert(assoc_lookup(acc2, h) == resolve_handle(h, idents, addrs, search));
            assert(h == h0);
            assert(handles.contains(h)) by {
                assert(handles[0] == h);
            }
            assert(assoc_lookup(r, h) == resolve_handle(h, idents, addrs, search));
        }
        if handles.contains(h) && h != h0 {
            let w = choose|w: int| 0 <= w < handles.len() && handles[w] == h;
            assert(handles[0] == h0);
            assert(w != 0);
            assert(handles.drop_first()[w - 1] == h);
            assert(handles.drop_first().contains(h));
        }
        if handles.drop_first().contains(h) {
            let w = choose|w: int|
                0 <= w < handles.drop_first().len() && handles.drop_first()[w] == h;
            assert(handles[w + 1] == h);
            assert(handles.contains(h));
        }
    }
}

/// Relates lookups in the mapping before and after one handle's step.
proof fn lemma_assoc_push_cases(
    acc: Seq<(ModuleHandle, CompiledModuleV)>,
    acc2: Seq<(ModuleHandle, CompiledModuleV)>,
    h0: ModuleHandle,
    idents: Seq<Seq<u8>>,
    addrs: Seq<Seq<u8>>,
    search: Seq<CompiledModuleV>,
    h: ModuleHandle,
)
    requires
        acc2 == (if assoc_slot(acc, h0) is Some {
            acc
        } else {
            match resolve_handle(h0, idents, addrs, search) {
                Some(m) => acc.push((h0, m)),
                None => acc,
            }
        }),
    ensures
        assoc_lookup(acc, h) is Some ==> assoc_lookup(acc2, h) == assoc_lookup(acc, h),
        assoc_lookup(acc2, h) is Some ==> assoc_lookup(acc2, h) == (if assoc_lookup(
            acc,
            h,
        ) is Some {
            assoc_lookup(acc, h)
        } else {
            resolve_handle(h, idents, addrs, search)
        }),
        assoc_lookup(acc, h) is None && assoc_lookup(acc2, h) is None && h == h0 ==> resolve_handle(
            h,
            idents,
            addrs,
            search,
        ) is None,
        assoc_lookup(acc2, h) is None ==> assoc_lookup(acc, h) is None,
        assoc_lookup(acc, h) is None && h != h0 ==> assoc_lookup(acc2, h) is None,
{
    if assoc_slot(acc, h0) is None {
        match resolve_handle(h0, idents, addrs, search) {
            Some(m) => {
                lemma_assoc_push(acc, h0, m, h);
            },
            None => {},
        }
    }
}

/// Resolution correctness: a declared handle that some supplied
/// module matches is mapped to the last such module; a handle that
/// nothing matches, and any handle the script never declared, is
/// absent from the mapping.
pub proof fn lemma_resolution_correct(
    handles: Seq<ModuleHandle>,
    idents: Seq<Seq<u8>>,
    addrs: Seq<Seq<u8>>,
    search: Seq<CompiledModuleV>,
    h: ModuleHandle,
)
    ensures
        handles.contains(h) ==> assoc_lookup(resolution(handles, idents, addrs, search), h)
            == resolve_handle(h, idents, addrs, search),
        !handles.contains(h) ==> assoc_lookup(resolution(handles, idents, addrs, search), h) is None,
{
    let empty = Seq::<(ModuleHandle, CompiledModuleV)>::empty();
    assert(forall|k: ModuleHandle| #[trigger] assoc_lookup(empty, k) is None);
    lemma_resolution_acc_correct(handles, idents, addrs, search, empty, h);
}

/// Resolves a handle's key through the given pools.
pub fn handle_key(h: &ModuleHandle, idents: &Vec<Vec<u8>>, addrs: &Vec<Vec<u8>>) -> (r: Option<
    (Vec<u8>, Vec<u8>),
>)
    ensures
        match r {
            Some(k) => resolved_key(*h, idents.deep_view(), addrs.deep_view()) == Some(
                (k.0.deep_view(), k.1.deep_view()),
            ),
            None => resolved_key(*h, idents.deep_view(), addrs.deep_view()) is None,
        },
{
    if (h.address as usize) < addrs.len() && (h.name as usize) < idents.len() {
        Some((copy_bytes(&addrs[h.address as usize]), copy_bytes(&idents[h.name as usize])))
    } else {
        None
    }
}

/// Resolves a module's self identity through its own pools.
pub fn module_key(m: &CompiledModule) -> (r: Option<(Vec<u8>, Vec<u8>)>)
    ensures
        match r {
            Some(k) => module_self_key(m.deep_view()) == Some((k.0.deep_view(), k.1.deep_view())),
            None => module_self_key(m.deep_view()) is None,
        },
{
    if (m.self_module_handle_idx as usize) < m.module_handles.len() {
        let h = m.module_handles[m.self_module_handle_idx as usize];
        handle_key(&h, &m.identifiers, &m.address_identifiers)
    } else {
        None
    }
}

/// Finds the last candidate whose self identity equals `key`.
pub fn find_last_match(key: &(Vec<u8>, Vec<u8>), search: &Vec<CompiledModule>) -> (r: Option<usize>)
    ensures
        match r {
            Some(i) => i < search@.len() && last_match(
                (key.0.deep_view(), key.1.deep_view()),
                search.deep_view(),
            ) == Some(search.deep_view()[i as int]),
            None => last_match((key.0.deep_view(), key.1.deep_view()), search.deep_view()) is None,
        },
{
    let n = search.len();
    let mut found: Option<usize> = None;
    let mut i: usize = 0;
    while i < n
        invariant
            i <= n,
            n == search@.len(),
            match found {
                Some(f) => f < i && last_match(
                    (key.0.deep_view(), key.1.deep_view()),
                    search.deep_view().take(i as int),
                ) == Some(search.deep_view()[f as int]),
                None => last_match(
                    (key.0.deep_view(), key.1.deep_view()),
                    search.deep_view().take(i as int),
                ) is None,
            },
        decreases n - i,
    {
        let is_match = match module_key(&search[i]) {
            Some(mk) => bytes_eq(&mk.0, &key.0) && bytes_eq(&mk.1, &key.1),
            None => false,
        };
        proof {
            let dv = search.deep_view();
            let k = (key.0.deep_view(), key.1.deep_view());
            assert(dv.take(i + 1).last() == dv[i as int]);
            assert(dv.take(i + 1).drop_last() =~= dv.take(i as int));
        }
        if is_match {
            found = Some(i);
        }
        i = i + 1;
    }
    proof {
        assert(search.deep_view().take(n as int) =~= search.deep_view());
    }
    found
}

/// Matches the module handles a script declares against the supplied
/// candidate modules, producing the resolution mapping.
///
/// When several candidates claim the same identity the last one in
/// supply order wins silently; handles that nothing matches are absent
/// from the mapping.
pub fn module_resolution(
    handles: &Vec<ModuleHandle>,
    idents: &Vec<Vec<u8>>,
    addrs: &Vec<Vec<u8>>,
    search: Vec<CompiledModule>,
) -> (res: Vec<(ModuleHandle, CompiledModule)>)
    ensures
        res.deep_view() == resolution(
            handles.deep_view(),
            idents.deep_view(),
            addrs.deep_view(),
            search.deep_view(),
        ),
{
    let n = handles.len();
    let mut res: Vec<(ModuleHandle, CompiledModule)> = Vec::new();
    proof {
        assert(handles.deep_view().skip(0) =~= handles.deep_view());
        assert(res.deep_view() =~= Seq::<(ModuleHandle, CompiledModuleV)>::empty());
    }
    let mut i: usize = 0;
    while i < n
        invariant
            i <= n,
            n == handles@.len(),
            resolution_acc(
                handles.deep_view().skip(i as int),
                idents.deep_view(),
                addrs.deep_view(),
                search.deep_view(),
                res.deep_view(),
            ) == resolution(
                handles.deep_view(),
                idents.deep_view(),
                addrs.deep_view(),
                search.deep_view(),
            ),
        decreases n - i,
    {
        let h = handles[i];
        proof {
            let hs = handles.deep_view();
            assert(hs.skip(i as int).first() == hs[i as int]);
            assert(hs.skip(i as int).drop_first() =~= hs.skip(i + 1));
        }
        let already = contains_key(&res, &h);
        if !already {
            let key = handle_key(&h, idents, addrs);
            match key {
                Some(k) => {
                    match find_last_match(&k, &search) {
                        Some(j) => {
                            let ghost pre = res.deep_view();
                            let m = search[j].duplicate();
                            res.push((h, m));
                            assert(res.deep_view() =~= pre.push(
                                (h, search.deep_view()[j as int]),
                            ));
                        },
                        None => {},
                    }
                },
                None => {},
            }
        }
        i = i + 1;
    }
    proof {
        assert(handles.deep_view().skip(n as int) =~= Seq::<ModuleHandle>::empty());
    }
    res
}

/// Tests whether an association list already holds an entry for `h`.
fn contains_key(res: &Vec<(ModuleHandle, CompiledModule)>, h: &ModuleHandle) -> (r: bool)
    ensures
        r == (assoc_slot(res.deep_view(), *h) is Some),
{
    let n = res.len();
    proof {
        assert(res.deep_view().skip(0) =~= res.deep_view());
    }
    let mut i: usize = 0;
    while i < n
        invariant
            i <= n,
            n == res@.len(),
            assoc_slot(res.deep_view(), *h) is Some <==> assoc_slot(
                res.deep_view().skip(i as int),
                *h,
            ) is Some,
        decreases n - i,
    {
        proof {
            let dv = res.deep_view();
            assert(dv.skip(i as int).first() == dv[i as int]);
            assert(dv.skip(i as int).drop_first() =~= dv.skip(i + 1));
        }
        if res[i].0.address == h.address && res[i].0.name == h.name {
            assert(res.deep_view()[i as int].0 == *h);
            return true;
        }
        i = i + 1;
    }
    proof {
        assert(res.deep_view().skip(n as int) =~= Seq::<(ModuleHandle, CompiledModuleV)>::empty());
    }
    false
}

} // verus!
