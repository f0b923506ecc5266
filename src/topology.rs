use std::collections::HashMap;
use vstd::prelude::*;

verus! {

broadcast use vstd::std_specs::hash::group_hash_axioms;

/// What can be wrong with a network before any numerical work starts.
#[derive(Clone, Copy, PartialEq, Eq, Debug, Structural)]
pub enum NetworkError {
    /// The network has no node or no edge.
    EmptyNetwork,
    /// An edge names a node id that no node of the network carries.
    UnknownId(usize),
    /// A time step was asked for before a steady solution was found.
    MissingSteady,
}

/// `i` is the last position at which `ids` holds `ids[i]`.
pub open spec fn is_last_position(ids: Seq<usize>, i: int) -> bool {
    &&& 0 <= i < ids.len()
    &&& forall|j: int| i < j < ids.len() ==> ids[j] != ids[i]
}

/// `m` maps every id of `ids`, and nothing else, to the last position that
/// holds it. With unique ids that is the position of the id.
pub open spec fn indexes_ids(m: Map<usize, usize>, ids: Seq<usize>) -> bool {
    &&& forall|k: usize| #[trigger] m.contains_key(k) <==> ids.contains(k)
    &&& forall|k: usize|
        #[trigger] m.contains_key(k) ==> {
            &&& ids[m[k] as int] == k
            &&& is_last_position(ids, m[k] as int)
        }
}

/// Builds the map from node id to node index, for nodes listed with `ids`.
pub fn create_id_to_index(ids: &Vec<usize>) -> (r: HashMap<usize, usize>)
    ensures
        indexes_ids(r@, ids@),
{
    let mut m: HashMap<usize, usize> = HashMap::new();
    let n = ids.len();
    let mut i: usize = 0;
    while i < n
        invariant
            n == ids.len(),
            i <= n,
            indexes_ids(m@, ids@.subrange(0, i as int)),
        decreases n - i,
    {
        let id = ids[i];
        m.insert(id, i);
        proof {
            let prev = ids@.subrange(0, i as int);
            let cur = ids@.subrange(0, i + 1);
            assert(cur == prev.push(id));
            assert forall|k: usize| #[trigger] m@.contains_key(k) <==> cur.contains(k) by {
                if cur.contains(k) && k != id {
                    let p = choose|p: int| 0 <= p < cur.len() && cur[p] == k;
                    assert(prev[p] == k);
                }
                if prev.contains(k) {
                    let p = choose|p: int| 0 <= p < prev.len() && prev[p] == k;
                    assert(cur[p] == k);
                }
                if k == id {
                    assert(cur[i as int] == k);
                }
            }
            assert forall|k: usize| #[trigger] m@.contains_key(k) implies {
                &&& cur[m@[k] as int] == k
                &&& is_last_position(cur, m@[k] as int)
            } by {
                if k != id {
                    assert(prev.contains(k));
                    assert(cur[m@[k] as int] == prev[m@[k] as int]);
                }
            }
        }
        i = i + 1;
    }
    assert(ids@.subrange(0, n as int) == ids@);
    m
}

/// The index of the node with id `id`, or `UnknownId` where the map has none.
pub fn index(id_to_index: &HashMap<usize, usize>, id: usize) -> (r: Result<usize, NetworkError>)
    ensures
        match r {
            Ok(i) => id_to_index@.contains_key(id) && i == id_to_index@[id],
            Err(e) => !id_to_index@.contains_key(id) && e == NetworkError::UnknownId(id),
        },
{
    match id_to_index.get(&id) {
        Some(i) => Ok(*i),
        None => Err(NetworkError::UnknownId(id)),
    }
}


/// Every edge of `ends` names two ids that `m` knows.
pub open spec fn all_known(m: Map<usize, usize>, ends: Seq<(usize, usize)>) -> bool {
    forall|j: int|
        0 <= j < ends.len() ==> m.contains_key(#[trigger] ends[j].0) && m.contains_key(ends[j].1)
}

/// `r` lists, edge by edge, the indices of the two end nodes of `ends`.
pub open spec fn resolves(m: Map<usize, usize>, ends: Seq<(usize, usize)>, r: Seq<(usize, usize)>) -> bool {
    &&& r.len() == ends.len()
    &&& forall|j: int|
        0 <= j < ends.len() ==> #[trigger] r[j] == (m[ends[j].0], m[ends[j].1])
}

/// The error for the first unknown id of the edges, taken edge by edge, the
/// `from` end before the `to` end.
pub open spec fn first_unknown(m: Map<usize, usize>, ends: Seq<(usize, usize)>, e: NetworkError) -> bool {
    exists|j: int|
        0 <= j < ends.len() && all_known(m, ends.take(j)) && if !m.contains_key(
            #[trigger] ends[j].0,
        ) {
            e == NetworkError::UnknownId(ends[j].0)
        } else {
            !m.contains_key(ends[j].1) && e == NetworkError::UnknownId(ends[j].1)
        }
}

/// Resolves the (from id, to id) pair of every edge into a pair of node indices.
pub fn edge_indices(id_to_index: &HashMap<usize, usize>, ends: &Vec<(usize, usize)>) -> (r: Result<
    Vec<(usize, usize)>,
    NetworkError,
>)
    ensures
        r is Ok <==> all_known(id_to_index@, ends@),
        r matches Ok(v) ==> resolves(id_to_index@, ends@, v@),
        r matches Err(e) ==> first_unknown(id_to_index@, ends@, e),
{
    let mut out: Vec<(usize, usize)> = Vec::new();
    let m = ends.len();
    let mut j: usize = 0;
    while j < m
        invariant
            m == ends.len(),
            j <= m,
            all_known(id_to_index@, ends@.take(j as int)),
            resolves(id_to_index@, ends@.take(j as int), out@),
        decreases m - j,
    {
        let (from, to) = ends[j];
        let a = index(id_to_index, from);
        let ia = match a {
            Ok(ia) => ia,
            Err(e) => {
                assert(first_unknown(id_to_index@, ends@, e)) by {
                    assert(ends@[j as int].0 == from);
                }
                proof {
                    assert(!all_known(id_to_index@, ends@));
                }
                return Err(e);
            },
        };
        let b = index(id_to_index, to);
        let ib = match b {
            Ok(ib) => ib,
            Err(e) => {
                assert(first_unknown(id_to_index@, ends@, e)) by {
                    assert(ends@[j as int].0 == from && ends@[j as int].1 == to);
                }
                proof {
                    assert(!all_known(id_to_index@, ends@));
                }
                return Err(e);
            },
        };
        out.push((ia, ib));
        proof {
            let prev = ends@.take(j as int);
            let cur = ends@.take(j + 1);
            assert(cur == prev.push(ends@[j as int]));
            assert forall|k: int| 0 <= k < cur.len() implies id_to_index@.contains_key(
                #[trigger] cur[k].0,
            ) && id_to_index@.contains_key(cur[k].1) by {
                if k < j {
                    assert(cur[k] == prev[k]);
                } else {
                    assert(cur[k] == ends@[j as int]);
                }
            }
            assert forall|k: int| 0 <= k < cur.len() implies #[trigger] out@[k] == (
                id_to_index@[cur[k].0],
                id_to_index@[cur[k].1],
            ) by {
                if k < j {
                    assert(cur[k] == prev[k]);
                }
            }
        }
        j = j + 1;
    }
    assert(ends@.take(m as int) == ends@);
    Ok(out)
}

/// Every node index named by the edges lies below `n`.
pub open spec fn indices_below(edges: Seq<(usize, usize)>, n: nat) -> bool {
    forall|j: int| 0 <= j < edges.len() ==> (#[trigger] edges[j]).0 < n && edges[j].1 < n
}

/// The entry of the signed incidence matrix K for an edge with end indices `e`
/// and node column `c`: +1 at the `from` node, -1 at the `to` node, where the
/// `to` end is written last.
pub open spec fn signed_entry(e: (usize, usize), c: int) -> int {
    if c == e.1 {
        -1
    } else if c == e.0 {
        1
    } else {
        0
    }
}

/// 1 where `c` is the node index `i`, 0 elsewhere.
pub open spec fn unit_entry(i: usize, c: int) -> int {
    if c == i {
        1
    } else {
        0
    }
}

/// Which of the three incidence operators an entry belongs to.
pub enum Incidence {
    /// K: +1 at `from`, -1 at `to`.
    Signed,
    /// K+: 1 at `from`.
    FromEnd,
    /// K-: 1 at `to`.
    ToEnd,
}

pub open spec fn incidence_entry(kind: Incidence, e: (usize, usize), c: int) -> int {
    match kind {
        Incidence::Signed => signed_entry(e, c),
        Incidence::FromEnd => unit_entry(e.0, c),
        Incidence::ToEnd => unit_entry(e.1, c),
    }
}

/// `r` is the `edges.len()` by `n` matrix of the operator `kind`.
pub open spec fn is_incidence(kind: Incidence, edges: Seq<(usize, usize)>, n: nat, r: Seq<Vec<i8>>) -> bool {
    &&& r.len() == edges.len()
    &&& forall|j: int|
        0 <= j < edges.len() ==> {
            &&& (#[trigger] r[j])@.len() == n
            &&& forall|c: int| 0 <= c < n ==> r[j]@[c] as int == incidence_entry(kind, edges[j], c)
        }
}

fn entry(kind: &Incidence, e: (usize, usize), c: usize) -> (r: i8)
    ensures
        r as int == incidence_entry(*kind, e, c as int),
{
    match kind {
        Incidence::Signed => if c == e.1 {
            -1
        } else if c == e.0 {
            1
        } else {
            0
        },
        Incidence::FromEnd => if c == e.0 {
            1
        } else {
            0
        },
        Incidence::ToEnd => if c == e.1 {
            1
        } else {
            0
        },
    }
}

fn incidence_rows(kind: Incidence, edges: &Vec<(usize, usize)>, n: usize) -> (r: Vec<Vec<i8>>)
    ensures
        is_incidence(kind, edges@, n as nat, r@),
{
    let mut mat: Vec<Vec<i8>> = Vec::new();
    let m = edges.len();
    let mut j: usize = 0;
    while j < m
        invariant
            m == edges.len(),
            j <= m,
            mat@.len() == j,
            forall|k: int|
                0 <= k < j ==> {
                    &&& (#[trigger] mat@[k])@.len() == n
                    &&& forall|c: int|
                        0 <= c < n ==> mat@[k]@[c] as int == incidence_entry(kind, edges@[k], c)
                },
        decreases m - j,
    {
        let e = edges[j];
        let mut row: Vec<i8> = Vec::new();
        let mut c: usize = 0;
        while c < n
            invariant
                c <= n,
                row@.len() == c,
                forall|d: int| 0 <= d < c ==> row@[d] as int == incidence_entry(kind, e, d),
            decreases n - c,
        {
            row.push(entry(&kind, e, c));
            c = c + 1;
        }
        mat.push(row);
        j = j + 1;
    }
    mat
}

/// The signed incidence matrix K, one row per edge and one column per node.
pub fn k_matrix(edges: &Vec<(usize, usize)>, n: usize) -> (r: Vec<Vec<i8>>)
    ensures
        is_incidence(Incidence::Signed, edges@, n as nat, r@),
{
    incidence_rows(Incidence::Signed, edges, n)
}

/// The matrix K+ that marks the `from` node of each edge.
pub fn kplus_matrix(edges: &Vec<(usize, usize)>, n: usize) -> (r: Vec<Vec<i8>>)
    ensures
        is_incidence(Incidence::FromEnd, edges@, n as nat, r@),
{
    incidence_rows(Incidence::FromEnd, edges, n)
}

/// The matrix K- that marks the `to` node of each edge.
pub fn kminus_matrix(edges: &Vec<(usize, usize)>, n: usize) -> (r: Vec<Vec<i8>>)
    ensures
        is_incidence(Incidence::ToEnd, edges@, n as nat, r@),
{
    incidence_rows(Incidence::ToEnd, edges, n)
}

/// The transpose K^T of the signed incidence matrix, one row per node: the
/// operator of continuity, (K^T q)_i is the net outflow of node `i`.
pub fn incidence_matrix(edges: &Vec<(usize, usize)>, n: usize) -> (r: Vec<Vec<i8>>)
    ensures
        r@.len() == n,
        forall|i: int|
            0 <= i < n ==> {
                &&& (#[trigger] r@[i])@.len() == edges@.len()
                &&& forall|j: int|
                    0 <= j < edges@.len() ==> r@[i]@[j] as int == signed_entry(edges@[j], i)
            },
{
    let mut mat: Vec<Vec<i8>> = Vec::new();
    let m = edges.len();
    let mut i: usize = 0;
    while i < n
        invariant
            m == edges.len(),
            i <= n,
            mat@.len() == i,
            forall|k: int|
                0 <= k < i ==> {
                    &&& (#[trigger] mat@[k])@.len() == m
                    &&& forall|j: int| 0 <= j < m ==> mat@[k]@[j] as int == signed_entry(edges@[j], k)
                },
        decreases n - i,
    {
        let mut row: Vec<i8> = Vec::new();
        let mut j: usize = 0;
        while j < m
            invariant
                m == edges.len(),
                j <= m,
                row@.len() == j,
                forall|d: int| 0 <= d < j ==> row@[d] as int == signed_entry(edges@[d], i as int),
            decreases m - j,
        {
            row.push(entry(&Incidence::Signed, edges[j], i));
            j = j + 1;
        }
        mat.push(row);
        i = i + 1;
    }
    mat
}

/// The position of the first node with id `id`, if any: the node that an
/// update by id replaces.
pub fn position_of_id(ids: &Vec<usize>, id: usize) -> (r: Option<usize>)
    ensures
        match r {
            Some(i) => i < ids@.len() && ids@[i as int] == id && forall|k: int|
                0 <= k < i ==> ids@[k] != id,
            None => !ids@.contains(id),
        },
{
    let n = ids.len();
    let mut i: usize = 0;
    while i < n
        invariant
            n == ids.len(),
            i <= n,
            forall|k: int| 0 <= k < i ==> ids@[k] != id,
        decreases n - i,
    {
        if ids[i] == id {
            return Some(i);
        }
        i = i + 1;
    }
    None
}

/// The position of the first edge from node `from` to node `to`, if any: an
/// edge is identified by its ordered pair of end ids.
pub fn position_of_edge(ends: &Vec<(usize, usize)>, from: usize, to: usize) -> (r: Option<usize>)
    ensures
        match r {
            Some(j) => j < ends@.len() && ends@[j as int] == (from, to) && forall|k: int|
                0 <= k < j ==> ends@[k] != (from, to),
            None => !ends@.contains((from, to)),
        },
{
    let m = ends.len();
    let mut j: usize = 0;
    while j < m
        invariant
            m == ends.len(),
            j <= m,
            forall|k: int| 0 <= k < j ==> ends@[k] != (from, to),
        decreases m - j,
    {
        let (a, b) = ends[j];
        if a == from && b == to {
            return Some(j);
        }
        j = j + 1;
    }
    None
}

/// The check made before a steady solve: the network needs nodes and edges.
pub fn check_steady(num_nodes: usize, num_edges: usize) -> (r: Result<(), NetworkError>)
    ensures
        r is Ok <==> num_nodes > 0 && num_edges > 0,
        r matches Err(e) ==> e == NetworkError::EmptyNetwork,
{
    if num_nodes == 0 || num_edges == 0 {
        Err(NetworkError::EmptyNetwork)
    } else {
        Ok(())
    }
}

/// The check made before a time step: the network needs nodes and edges, and
/// a steady solution to start from.
pub fn check_transient(num_nodes: usize, num_edges: usize, solved_steady: bool) -> (r: Result<
    (),
    NetworkError,
>)
    ensures
        r is Ok <==> num_nodes > 0 && num_edges > 0 && solved_steady,
        r matches Err(e) ==> if num_nodes == 0 || num_edges == 0 {
            e == NetworkError::EmptyNetwork
        } else {
            e == NetworkError::MissingSteady
        },
{
    if num_nodes == 0 || num_edges == 0 {
        Err(NetworkError::EmptyNetwork)
    } else if !solved_steady {
        Err(NetworkError::MissingSteady)
    } else {
        Ok(())
    }
}

} // verus!
