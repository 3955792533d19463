//! The syntax tree the rules inspect: the ESTree form of a program, read
//! from its JSON text into a flat table of nodes.  Every node records its
//! ESTree `type`, byte span, parent, the field of the parent that holds it,
//! its scalar fields, and its child nodes in source order.
use vstd::prelude::*;

use crate::text::{chars_of, eq_chars, eq_str};

verus! {

/// A scalar field of a node.
#[derive(Debug, Clone)]
pub enum Value {
    Null,
    Bool(bool),
    /// The number as written in the JSON text.
    Num(Vec<char>),
    Str(Vec<char>),
}

/// One node of the tree.
#[derive(Debug, Clone)]
pub struct Node {
    /// ESTree `type`; empty for nested plain objects such as a template element's `value`.
    pub kind: Vec<char>,
    /// Byte span in the source.
    pub start: u32,
    pub end: u32,
    /// Index of the parent node (the root is its own parent).
    pub parent: usize,
    /// Name of the parent's field that holds this node.
    pub key: Vec<char>,
    /// Position in that field when the field is an array.
    pub pos: usize,
    pub scalars: Vec<(Vec<char>, Value)>,
    /// Child nodes, in the order they appear.
    pub children: Vec<usize>,
}

/// A program's tree, root first, every node before its descendants.
#[derive(Debug, Clone)]
pub struct Ast {
    pub nodes: Vec<Node>,
}

/// Parents come before children, and child lists agree with parent links.
pub open spec fn wf_nodes(nodes: Seq<Node>) -> bool {
    &&& forall|i: int|
        0 < i < nodes.len() ==> #[trigger] nodes[i].parent < i
    &&& forall|i: int| 0 <= i < nodes.len() ==> #[trigger] nodes[i].parent < nodes.len()
    &&& forall|i: int, k: int|
        0 <= i < nodes.len() && 0 <= k < nodes[i].children@.len() ==> {
            let c = #[trigger] nodes[i].children@[k];
            &&& i < c < nodes.len()
            &&& nodes[c as int].parent == i
        }
}

impl Ast {
    pub open spec fn wf(self) -> bool {
        wf_nodes(self.nodes@)
    }

    pub open spec fn len(self) -> nat {
        self.nodes@.len()
    }

    pub open spec fn node(self, i: int) -> Node {
        self.nodes@[i]
    }

    /// A tree with no nodes (what an unreadable program yields).
    pub fn empty() -> (r: Ast)
        ensures
            r.wf(),
            r.nodes@.len() == 0,
    {
        Ast { nodes: Vec::new() }
    }

    /// The node's type is `k`.
    pub open spec fn is(self, i: int, k: Seq<char>) -> bool {
        0 <= i < self.nodes@.len() && self.nodes@[i].kind@ == k
    }

    /// The first child of `i` held in field `key`.
    pub open spec fn child(self, i: int, key: Seq<char>) -> Option<int> {
        let cs = self.nodes@[i].children@;
        if exists|k: int| 0 <= k < cs.len() && #[trigger] self.nodes@[cs[k] as int].key@ == key {
            let k = choose|k: int|
                0 <= k < cs.len() && #[trigger] self.nodes@[cs[k] as int].key@ == key && forall|
                    m: int,
                | 0 <= m < k ==> self.nodes@[cs[m] as int].key@ != key;
            Some(cs[k] as int)
        } else {
            None
        }
    }

    /// The children of `i` held in field `key`, in order.
    pub open spec fn field_children(self, i: int, key: Seq<char>) -> Seq<usize> {
        self.nodes@[i].children@.filter(|c: usize| self.nodes@[c as int].key@ == key)
    }

    /// The scalar field `key` of node `i`, if present.
    pub open spec fn scalar(self, i: int, key: Seq<char>) -> Option<Value> {
        let ss = self.nodes@[i].scalars@;
        if exists|k: int| 0 <= k < ss.len() && #[trigger] ss[k].0@ == key {
            let k = choose|k: int|
                0 <= k < ss.len() && #[trigger] ss[k].0@ == key && forall|m: int|
                    0 <= m < k ==> ss[m].0@ != key;
            Some(ss[k].1)
        } else {
            None
        }
    }

    /// The text of string field `key`, if present and a string.
    pub open spec fn text(self, i: int, key: Seq<char>) -> Option<Seq<char>> {
        match self.scalar(i, key) {
            Some(Value::Str(s)) => Some(s@),
            _ => None,
        }
    }

    /// The boolean field `key` is present and true.
    pub open spec fn flag(self, i: int, key: Seq<char>) -> bool {
        self.scalar(i, key) == Some(Value::Bool(true))
    }

    /// Whether node `i` has type `k`.
    pub fn is_kind(&self, i: usize, k: &str) -> (b: bool)
        requires
            i < self.nodes@.len(),
        ensures
            b == self.is(i as int, k@),
    {
        eq_str(&self.nodes[i].kind, k)
    }

    /// The first child of `i` in field `key`.
    pub fn child_of(&self, i: usize, key: &str) -> (r: Option<usize>)
        requires
            self.wf(),
            i < self.nodes@.len(),
        ensures
            r matches Some(c) ==> (i < c < self.nodes@.len() && Some(c as int) == self.child(i as int, key@)
                && self.nodes@[c as int].parent == i),
            r is None ==> self.child(i as int, key@) is None,
    {
        let k = chars_of(key);
        let cs = &self.nodes[i].children;
        let mut j: usize = 0;
        while j < cs.len()
            invariant
                self.wf(),
                i < self.nodes@.len(),
                *cs == self.nodes@[i as int].children,
                k@ == key@,
                j <= cs@.len(),
                forall|m: int| 0 <= m < j ==> self.nodes@[cs@[m] as int].key@ != key@,
            decreases cs@.len() - j,
        {
            let c = cs[j];
            assert(i < c < self.nodes@.len() && self.nodes@[c as int].parent == i) by {
                assert(cs@[j as int] == self.nodes@[i as int].children@[j as int]);
            }
            if eq_chars(&self.nodes[c].key, &k) {
                proof {
                    let w = choose|w: int|
                        0 <= w < cs@.len() && #[trigger] self.nodes@[cs@[w] as int].key@ == key@
                            && forall|m: int| 0 <= m < w ==> self.nodes@[cs@[m] as int].key@ != key@;
                    assert(w == j) by {
                        if w < j {
                        } else if w > j {
                        }
                    }
                }
                return Some(c);
            }
            j = j + 1;
        }
        None
    }

    /// The children of `i` in field `key`, in order.
    pub fn children_in(&self, i: usize, key: &str) -> (r: Vec<usize>)
        requires
            self.wf(),
            i < self.nodes@.len(),
        ensures
            r@ == self.field_children(i as int, key@),
            forall|k: int|
                0 <= k < r@.len() ==> i < #[trigger] r@[k] < self.nodes@.len() && self.nodes@[r@[k] as int].parent == i,
    {
        let k = chars_of(key);
        let cs = &self.nodes[i].children;
        let ghost pred = |c: usize| self.nodes@[c as int].key@ == key@;
        let mut out: Vec<usize> = Vec::new();
        let mut j: usize = 0;
        while j < cs.len()
            invariant
                self.wf(),
                i < self.nodes@.len(),
                *cs == self.nodes@[i as int].children,
                k@ == key@,
                j <= cs@.len(),
                pred == (|c: usize| self.nodes@[c as int].key@ == key@),
                out@ == cs@.take(j as int).filter(pred),
                forall|m: int|
                    0 <= m < out@.len() ==> i < #[trigger] out@[m] < self.nodes@.len()
                        && self.nodes@[out@[m] as int].parent == i,
            decreases cs@.len() - j,
        {
            let c = cs[j];
            assert(i < c < self.nodes@.len() && self.nodes@[c as int].parent == i) by {
                assert(cs@[j as int] == self.nodes@[i as int].children@[j as int]);
            }
            let hit = eq_chars(&self.nodes[c].key, &k);
            if hit {
                out.push(c);
            }
            proof {
                reveal_with_fuel(Seq::<_>::filter, 1);
                assert(cs@.take(j + 1).drop_last() =~= cs@.take(j as int));
                assert(cs@.take(j + 1).last() == c);
            }
            j = j + 1;
        }
        assert(cs@.take(j as int) =~= cs@);
        out
    }

    /// The scalar field `key` of node `i`.
    pub fn scalar_of(&self, i: usize, key: &str) -> (r: Option<&Value>)
        requires
            i < self.nodes@.len(),
        ensures
            r matches Some(v) ==> self.scalar(i as int, key@) == Some(*v),
            r is None ==> self.scalar(i as int, key@) is None,
    {
        let k = chars_of(key);
        let ss = &self.nodes[i].scalars;
        let mut j: usize = 0;
        while j < ss.len()
            invariant
                i < self.nodes@.len(),
                *ss == self.nodes@[i as int].scalars,
                k@ == key@,
                j <= ss@.len(),
                forall|m: int| 0 <= m < j ==> ss@[m].0@ != key@,
            decreases ss@.len() - j,
        {
            if eq_chars(&ss[j].0, &k) {
                proof {
                    let w = choose|w: int|
                        0 <= w < ss@.len() && #[trigger] ss@[w].0@ == key@ && forall|m: int|
                            0 <= m < w ==> ss@[m].0@ != key@;
                    assert(w == j) by {
                        if w < j {
                        } else if w > j {
                        }
                    }
                }
                return Some(&ss[j].1);
            }
            j = j + 1;
        }
        None
    }

    /// The string field `key` of node `i`.
    pub fn text_of(&self, i: usize, key: &str) -> (r: Option<&Vec<char>>)
        requires
            i < self.nodes@.len(),
        ensures
            r matches Some(t) ==> self.text(i as int, key@) == Some(t@),
            r is None ==> self.text(i as int, key@) is None,
    {
        match self.scalar_of(i, key) {
            Some(Value::Str(s)) => Some(s),
            _ => None,
        }
    }

    /// Whether the boolean field `key` of node `i` is true.
    pub fn flag_of(&self, i: usize, key: &str) -> (b: bool)
        requires
            i < self.nodes@.len(),
        ensures
            b == self.flag(i as int, key@),
    {
        match self.scalar_of(i, key) {
            Some(Value::Bool(v)) => *v,
            _ => false,
        }
    }
}

// ── What the JSON text describes ───────────────────────────

/// A scalar field as plain values.
pub enum ValueV {
    Null,
    Bool(bool),
    Num(Seq<char>),
    Str(Seq<char>),
}

/// A node as plain values.
pub struct NodeV {
    pub kind: Seq<char>,
    pub start: u32,
    pub end: u32,
    pub parent: usize,
    pub key: Seq<char>,
    pub pos: usize,
    pub scalars: Seq<(Seq<char>, ValueV)>,
    pub children: Seq<usize>,
}

pub open spec fn value_view(v: Value) -> ValueV {
    match v {
        Value::Null => ValueV::Null,
        Value::Bool(b) => ValueV::Bool(b),
        Value::Num(t) => ValueV::Num(t@),
        Value::Str(t) => ValueV::Str(t@),
    }
}

pub open spec fn scalars_view(ss: Seq<(Vec<char>, Value)>) -> Seq<(Seq<char>, ValueV)> {
    ss.map_values(|e: (Vec<char>, Value)| (e.0@, value_view(e.1)))
}

pub open spec fn node_view(n: Node) -> NodeV {
    NodeV {
        kind: n.kind@,
        start: n.start,
        end: n.end,
        parent: n.parent,
        key: n.key@,
        pos: n.pos,
        scalars: scalars_view(n.scalars@),
        children: n.children@,
    }
}

pub open spec fn nodes_view(ns: Seq<Node>) -> Seq<NodeV> {
    ns.map_values(|n: Node| node_view(n))
}

/// JSON whitespace.
pub open spec fn json_ws(c: char) -> bool {
    c == ' ' || c == '\n' || c == '\r' || c == '\t'
}

/// The index just past the whitespace at `p`.
pub open spec fn ws_end(s: Seq<char>, p: int) -> int
    decreases s.len() - p,
{
    if 0 <= p < s.len() && json_ws(s[p]) {
        ws_end(s, p + 1)
    } else {
        p
    }
}

/// The index just past the number characters at `p`.
pub open spec fn num_end(s: Seq<char>, p: int) -> int
    decreases s.len() - p,
{
    if 0 <= p < s.len() && number_char(s[p]) {
        num_end(s, p + 1)
    } else {
        p
    }
}

/// The value of a hexadecimal digit.
pub open spec fn hex_val(c: char) -> Option<u32> {
    if '0' <= c && c <= '9' {
        Some(((c as u32) - ('0' as u32)) as u32)
    } else if 'a' <= c && c <= 'f' {
        Some(((c as u32) - ('a' as u32) + 10) as u32)
    } else if 'A' <= c && c <= 'F' {
        Some(((c as u32) - ('A' as u32) + 10) as u32)
    } else {
        None
    }
}

/// The value of the `i` hexadecimal digits at `p`.
pub open spec fn hex_prefix(s: Seq<char>, p: int, i: int) -> Option<u32>
    decreases i,
{
    if i <= 0 {
        Some(0)
    } else {
        match (hex_prefix(s, p, i - 1), hex_val(s[p + i - 1])) {
            (Some(v), Some(d)) => Some((v * 16 + d) as u32),
            _ => None,
        }
    }
}

/// The value of the four hexadecimal digits at `p`.
pub open spec fn hex4_at(s: Seq<char>, p: int) -> Option<u32> {
    if p > s.len() || s.len() - p < 4 {
        None
    } else {
        hex_prefix(s, p, 4)
    }
}

/// A Unicode scalar value.
pub open spec fn scalar_code(code: u32) -> bool {
    code < 0xD800 || (0xE000 <= code && code <= 0x10FFFF)
}

/// The character a `\u` escape stands for; U+FFFD for a code that is none.
pub open spec fn decoded_char(code: u32) -> char {
    if scalar_code(code) {
        code as char
    } else {
        '\u{fffd}'
    }
}

/// The character a one-letter escape stands for.
pub open spec fn escape_char(e: char) -> char {
    if e == 'n' {
        '\n'
    } else if e == 't' {
        '\t'
    } else if e == 'r' {
        '\r'
    } else if e == 'b' {
        '\u{8}'
    } else if e == 'f' {
        '\u{c}'
    } else {
        e
    }
}

/// The code of the `\u` escape at `q` whose four digits give `hi`, joined
/// with a following low surrogate escape, and the index past it.
pub open spec fn unicode_escape(s: Seq<char>, q: int, hi: u32) -> (u32, int) {
    let next = q + 6;
    if 0xD800 <= hi && hi < 0xDC00 && s.len() - next > 1 && s[next] == '\\' && s[next + 1] == 'u' {
        match hex4_at(s, next + 2) {
            Some(lo) => if 0xDC00 <= lo && lo < 0xE000 {
                ((0x10000 + (hi - 0xD800) * 0x400 + (lo - 0xDC00)) as u32, next + 6)
            } else {
                (hi, next)
            },
            None => (hi, next),
        }
    } else {
        (hi, next)
    }
}

/// The rest of a string from `q`, with `out` decoded so far.
pub open spec fn string_rest(s: Seq<char>, q: int, out: Seq<char>) -> Option<(Seq<char>, int)>
    decreases s.len() - q,
{
    if !(0 <= q < s.len()) {
        None
    } else if s[q] == '"' {
        Some((out, q + 1))
    } else if s[q] == '\\' {
        if q + 1 >= s.len() {
            None
        } else if s[q + 1] == 'u' {
            match hex4_at(s, q + 2) {
                None => None,
                Some(hi) => {
                    let (code, next) = unicode_escape(s, q, hi);
                    if next <= q {
                        None
                    } else {
                        string_rest(s, next, out.push(decoded_char(code)))
                    }
                },
            }
        } else {
            string_rest(s, q + 2, out.push(escape_char(s[q + 1])))
        }
    } else {
        string_rest(s, q + 1, out.push(s[q]))
    }
}

/// The string at `p` (its opening quote) decoded, and the index past it.
pub open spec fn string_at(s: Seq<char>, p: int) -> Option<(Seq<char>, int)> {
    if 0 <= p < s.len() && s[p] == '"' {
        string_rest(s, p + 1, Seq::empty())
    } else {
        None
    }
}

/// A node not yet read: its place in the tree only.
pub open spec fn placeholder_v(parent: usize, key: Seq<char>, pos: usize) -> NodeV {
    NodeV {
        kind: Seq::empty(),
        start: 0,
        end: 0,
        parent,
        key,
        pos,
        scalars: Seq::empty(),
        children: Seq::empty(),
    }
}

/// The value at `p` in field `key` (position `pos`) of node `parent`, read
/// on top of the nodes `ns` and the parent's child list `kids`: the scalar
/// (if it is one), the index past it, the nodes and the child list after it.
pub open spec fn value_at(
    s: Seq<char>,
    p: int,
    ns: Seq<NodeV>,
    parent: usize,
    key: Seq<char>,
    pos: usize,
    kids: Seq<usize>,
) -> Option<(Option<ValueV>, int, Seq<NodeV>, Seq<usize>)>
    decreases s.len() - p, 1nat,
{
    if !(0 <= p < s.len()) {
        None
    } else if s[p] == '{' {
        match object_at(s, p, ns, parent, key, pos) {
            None => None,
            Some((idx, q, ns2)) => Some((None, q, ns2, kids.push(idx as usize))),
        }
    } else if s[p] == '[' {
        let q = ws_end(s, p + 1);
        if q < s.len() && s[q] == ']' {
            Some((None, q + 1, ns, kids))
        } else if q <= p || q >= s.len() {
            None
        } else {
            match array_rest(s, q, ns, parent, key, 0, kids) {
                None => None,
                Some((q2, ns2, kids2)) => Some((None, q2, ns2, kids2)),
            }
        }
    } else if s[p] == '"' {
        match string_at(s, p) {
            None => None,
            Some((t, q)) => Some((Some(ValueV::Str(t)), q, ns, kids)),
        }
    } else if s[p] == 't' {
        if s.len() - p >= 4 {
            Some((Some(ValueV::Bool(true)), p + 4, ns, kids))
        } else {
            None
        }
    } else if s[p] == 'f' {
        if s.len() - p >= 5 {
            Some((Some(ValueV::Bool(false)), p + 5, ns, kids))
        } else {
            None
        }
    } else if s[p] == 'n' {
        if s.len() - p >= 4 {
            Some((Some(ValueV::Null), p + 4, ns, kids))
        } else {
            None
        }
    } else {
        let q = num_end(s, p);
        if q == p {
            None
        } else {
            Some((Some(ValueV::Num(s.subrange(p, q))), q, ns, kids))
        }
    }
}

/// The elements of an array from `q`, the next being element `index` (saturating).
pub open spec fn array_rest(
    s: Seq<char>,
    q: int,
    ns: Seq<NodeV>,
    parent: usize,
    key: Seq<char>,
    index: usize,
    kids: Seq<usize>,
) -> Option<(int, Seq<NodeV>, Seq<usize>)>
    decreases s.len() - q, 2nat,
{
    if !(0 <= q < s.len()) {
        None
    } else {
        let index2: usize = if index < usize::MAX {
            (index + 1) as usize
        } else {
            index
        };
        match value_at(s, q, ns, parent, key, (index2 - 1) as usize, kids) {
            None => None,
            Some((_, nq, ns2, kids2)) => {
                let q2 = ws_end(s, nq);
                if q2 >= s.len() {
                    None
                } else if s[q2] == ',' {
                    let q3 = ws_end(s, q2 + 1);
                    if q3 <= q || q3 >= s.len() {
                        None
                    } else {
                        array_rest(s, q3, ns2, parent, key, index2, kids2)
                    }
                } else if s[q2] == ']' {
                    Some((q2 + 1, ns2, kids2))
                } else {
                    None
                }
            },
        }
    }
}

/// The object at `p` (its opening brace) read as a new node under `parent`:
/// the new node's index, the index past the object, the nodes after it.
pub open spec fn object_at(
    s: Seq<char>,
    p: int,
    ns: Seq<NodeV>,
    parent: usize,
    key: Seq<char>,
    pos: usize,
) -> Option<(int, int, Seq<NodeV>)>
    decreases s.len() - p, 0nat,
{
    if !(0 <= p < s.len()) || s[p] != '{' {
        None
    } else {
        let idx = ns.len() as int;
        let ns1 = ns.push(placeholder_v(parent, key, pos));
        let q = ws_end(s, p + 1);
        if q < s.len() && s[q] == '}' {
            Some((idx, q + 1, ns1))
        } else if q <= p || q >= s.len() {
            None
        } else {
            object_rest(s, q, ns1, idx, parent, pos, Seq::empty(), 0, 0, Seq::empty(), Seq::empty())
        }
    }
}

/// The members of object node `idx` from `q`, with its type, span, scalars
/// and children read so far.
pub open spec fn object_rest(
    s: Seq<char>,
    q: int,
    ns: Seq<NodeV>,
    idx: int,
    parent: usize,
    pos: usize,
    kind: Seq<char>,
    start: u32,
    end: u32,
    scalars: Seq<(Seq<char>, ValueV)>,
    kids: Seq<usize>,
) -> Option<(int, int, Seq<NodeV>)>
    decreases s.len() - q, 3nat,
{
    if !(0 <= q < s.len()) {
        None
    } else {
        match string_at(s, q) {
            None => None,
            Some((name, after)) => {
                let v0 = ws_end(s, after);
                if v0 >= s.len() || s[v0] != ':' {
                    None
                } else {
                    let v = ws_end(s, v0 + 1);
                    if v >= s.len() || v <= q {
                        None
                    } else {
                        match value_at(s, v, ns, idx as usize, name, 0, kids) {
                            None => None,
                            Some((scalar, nq, ns2, kids2)) => {
                                let kind2 = match scalar {
                                    Some(ValueV::Str(t)) => if name == "type"@ {
                                        t
                                    } else {
                                        kind
                                    },
                                    _ => kind,
                                };
                                let start2 = match scalar {
                                    Some(ValueV::Num(t)) => if name != "type"@ && name == "start"@ {
                                        leading_number(t)
                                    } else {
                                        start
                                    },
                                    _ => start,
                                };
                                let end2 = match scalar {
                                    Some(ValueV::Num(t)) => if name != "type"@ && name != "start"@ && name
                                        == "end"@ {
                                        leading_number(t)
                                    } else {
                                        end
                                    },
                                    _ => end,
                                };
                                let scalars2 = match scalar {
                                    Some(val) => scalars.push((name, val)),
                                    None => scalars,
                                };
                                let q2 = ws_end(s, nq);
                                if q2 >= s.len() {
                                    None
                                } else if s[q2] == ',' {
                                    let q3 = ws_end(s, q2 + 1);
                                    if q3 <= q || q3 >= s.len() {
                                        None
                                    } else {
                                        object_rest(s, q3, ns2, idx, parent, pos, kind2, start2, end2, scalars2, kids2)
                                    }
                                } else if s[q2] == '}' {
                                    Some(
                                        (
                                            idx,
                                            q2 + 1,
                                            ns2.update(
                                                idx,
                                                NodeV {
                                                    kind: kind2,
                                                    start: start2,
                                                    end: end2,
                                                    parent,
                                                    key: ns2[idx].key,
                                                    pos,
                                                    scalars: scalars2,
                                                    children: kids2,
                                                },
                                            ),
                                        ),
                                    )
                                } else {
                                    None
                                }
                            },
                        }
                    }
                }
            },
        }
    }
}

/// A node of the anchored table with the anchor removed: indices one lower.
pub open spec fn shift_node(n: NodeV) -> NodeV {
    NodeV {
        parent: if n.parent == 0 {
            0
        } else {
            (n.parent - 1) as usize
        },
        children: n.children.map_values(|c: usize| if c == 0 { 0 } else { (c - 1) as usize }),
        ..n
    }
}

/// The tree the ESTree JSON text of a program describes: every object
/// becomes a node, after its parent, holding its type, span, scalar fields
/// and child objects in order; text that is not a JSON object describes no
/// tree.
pub open spec fn tree_of(text: Seq<char>) -> Seq<NodeV> {
    let p = ws_end(text, 0);
    if p >= text.len() || text[p] != '{' {
        Seq::empty()
    } else {
        match object_at(text, p, seq![placeholder_v(0, Seq::empty(), 0)], 0, Seq::empty(), 0) {
            None => Seq::empty(),
            Some((_, _, ns)) => Seq::new((ns.len() - 1) as nat, |j: int| shift_node(ns[j + 1])),
        }
    }
}

// ── Reading the JSON text ──────────────────────────────────

/// The index just past JSON whitespace at `p`.
fn skip_ws(s: &Vec<char>, p: usize) -> (r: usize)
    requires
        p <= s.len(),
    ensures
        p <= r <= s.len(),
        r == ws_end(s@, p as int),
{
    let mut q = p;
    while q < s.len() && (s[q] == ' ' || s[q] == '\n' || s[q] == '\r' || s[q] == '\t')
        invariant
            p <= q <= s.len(),
            ws_end(s@, p as int) == ws_end(s@, q as int),
        decreases s.len() - q,
    {
        q = q + 1;
    }
    q
}

fn hex_digit(c: char) -> (r: Option<u32>)
    ensures
        r == hex_val(c),
        r matches Some(v) ==> v < 16,
{
    if '0' <= c && c <= '9' {
        Some((c as u32) - ('0' as u32))
    } else if 'a' <= c && c <= 'f' {
        Some((c as u32) - ('a' as u32) + 10)
    } else if 'A' <= c && c <= 'F' {
        Some((c as u32) - ('A' as u32) + 10)
    } else {
        None
    }
}

proof fn lemma_hex_prefix_none(s: Seq<char>, p: int, i: int, k: int)
    requires
        0 <= i <= k,
        hex_prefix(s, p, i) is None,
    ensures
        hex_prefix(s, p, k) is None,
    decreases k - i,
{
    if i < k {
        lemma_hex_prefix_none(s, p, i, k - 1);
    }
}

fn hex4(s: &Vec<char>, p: usize) -> (r: Option<u32>)
    ensures
        r == hex4_at(s@, p as int),
        r matches Some(v) ==> v < 0x10000 && p + 4 <= s.len(),
{
    if p > s.len() || s.len() - p < 4 {
        return None;
    }
    let mut v: u32 = 0;
    let mut i: usize = 0;
    while i < 4
        invariant
            p + 4 <= s.len(),
            i <= 4,
            v < 0x10000,
            hex_prefix(s@, p as int, i as int) == Some(v),
            i == 0 ==> v == 0,
            i == 1 ==> v < 16,
            i == 2 ==> v < 256,
            i == 3 ==> v < 4096,
        decreases 4 - i,
    {
        match hex_digit(s[p + i]) {
            Some(d) => {
                v = v * 16 + d;
            },
            None => {
                proof {
                    lemma_hex_prefix_none(s@, p as int, i + 1, 4);
                }
                return None;
            },
        }
        i = i + 1;
    }
    Some(v)
}

/// The character with a Unicode scalar value, if it is one: `char::from_u32`,
/// which std documents as `None` exactly for values that are no scalar value
/// (surrogates and values above U+10FFFF).
#[verifier::external_body]
fn char_from_u32(code: u32) -> (r: Option<char>)
    ensures
        r is Some <==> scalar_code(code),
        r matches Some(c) ==> c == code as char,
{
    char::from_u32(code)
}

/// Reads a JSON string starting at its opening quote; returns its decoded
/// text and the index past the closing quote.
fn read_string(s: &Vec<char>, p: usize) -> (r: Option<(Vec<char>, usize)>)
    requires
        p < s.len(),
    ensures
        r matches Some((_, q)) ==> p < q <= s.len(),
        match r {
            Some((t, q)) => string_at(s@, p as int) == Some((t@, q as int)),
            None => string_at(s@, p as int) is None,
        },
{
    if s[p] != '"' {
        return None;
    }
    let mut out: Vec<char> = Vec::new();
    let mut q = p + 1;
    while q < s.len()
        invariant
            p < q <= s.len(),
            s@[p as int] == '"',
            string_at(s@, p as int) == string_rest(s@, q as int, out@),
        decreases s.len() - q,
    {
        let c = s[q];
        if c == '"' {
            return Some((out, q + 1));
        }
        if c == '\\' {
            if q + 1 >= s.len() {
                return None;
            }
            let e = s[q + 1];
            if e == 'u' {
                match hex4(s, q + 2) {
                    None => {
                        return None;
                    },
                    Some(hi) => {
                        let mut next = q + 6;
                        let mut code: u32 = hi;
                        if 0xD800 <= hi && hi < 0xDC00 && s.len() - next > 1 && s[next] == '\\'
                            && s[next + 1] == 'u' {
                            match hex4(s, next + 2) {
                                Some(lo) => {
                                    if 0xDC00 <= lo && lo < 0xE000 {
                                        code = 0x10000 + (hi - 0xD800) * 0x400 + (lo - 0xDC00);
                                        next = next + 6;
                                    }
                                },
                                None => {},
                            }
                        }
                        assert(unicode_escape(s@, q as int, hi) == (code, next as int));
                        match char_from_u32(code) {
                            Some(ch) => out.push(ch),
                            None => out.push('\u{fffd}'),
                        }
                        q = next;
                    },
                }
            } else {
                let decoded = if e == 'n' {
                    '\n'
                } else if e == 't' {
                    '\t'
                } else if e == 'r' {
                    '\r'
                } else if e == 'b' {
                    '\u{8}'
                } else if e == 'f' {
                    '\u{c}'
                } else {
                    e
                };
                out.push(decoded);
                q = q + 2;
            }
        } else {
            out.push(c);
            q = q + 1;
        }
    }
    None
}

/// A character that may occur in a JSON number's text.
pub open spec fn number_char(c: char) -> bool {
    ('0' <= c && c <= '9') || c == '-' || c == '+' || c == '.' || c == 'e' || c == 'E'
}

/// Reads a JSON number's text starting at `p`: the longest run of number
/// characters there, and the index past it.
fn read_number(s: &Vec<char>, p: usize) -> (r: (Vec<char>, usize))
    requires
        p < s.len(),
    ensures
        p <= r.1 <= s.len(),
        r.1 == num_end(s@, p as int),
        r.0@ == s@.subrange(p as int, r.1 as int),
        forall|k: int| p <= k < r.1 ==> number_char(#[trigger] s@[k]),
        r.1 == s.len() || !number_char(s@[r.1 as int]),
{
    let mut q = p;
    let mut out: Vec<char> = Vec::new();
    while q < s.len() && (('0' <= s[q] && s[q] <= '9') || s[q] == '-' || s[q] == '+' || s[q] == '.'
        || s[q] == 'e' || s[q] == 'E')
        invariant
            p <= q <= s.len(),
            out@ == s@.subrange(p as int, q as int),
            forall|k: int| p <= k < q ==> number_char(#[trigger] s@[k]),
            num_end(s@, p as int) == num_end(s@, q as int),
        decreases s.len() - q,
    {
        out.push(s[q]);
        q = q + 1;
        assert(out@ =~= s@.subrange(p as int, q as int));
    }
    (out, q)
}

/// An ASCII decimal digit.
pub open spec fn is_digit(c: char) -> bool {
    '0' <= c && c <= '9'
}

/// How many ASCII digits `t` starts with.
pub open spec fn lead_digits(t: Seq<char>) -> nat
    decreases t.len(),
{
    if t.len() > 0 && is_digit(t[0]) {
        1 + lead_digits(t.drop_first())
    } else {
        0
    }
}

/// The value of the digits `t` starts with, saturating at `u32::MAX`.
pub open spec fn leading_number(t: Seq<char>) -> u32 {
    let v = crate::results_tui::decimal(t.take(lead_digits(t) as int));
    if v > u32::MAX {
        u32::MAX
    } else {
        v as u32
    }
}

proof fn lemma_lead_digits(t: Seq<char>, i: int)
    requires
        0 <= i <= t.len(),
        forall|k: int| 0 <= k < i ==> is_digit(#[trigger] t[k]),
    ensures
        lead_digits(t) >= i,
        (i == t.len() || !is_digit(t[i])) ==> lead_digits(t) == i,
    decreases i,
{
    if i > 0 {
        assert forall|k: int| 0 <= k < i - 1 implies is_digit(#[trigger] t.drop_first()[k]) by {
            assert(t.drop_first()[k] == t[k + 1]);
        }
        lemma_lead_digits(t.drop_first(), i - 1);
        if i < t.len() {
            assert(t.drop_first()[i - 1] == t[i]);
        }
    } else if t.len() > 0 {
    }
}

proof fn lemma_lead_digits_le(t: Seq<char>)
    ensures
        lead_digits(t) <= t.len(),
    decreases t.len(),
{
    if t.len() > 0 && is_digit(t[0]) {
        lemma_lead_digits_le(t.drop_first());
    }
}

proof fn lemma_decimal_grows(t: Seq<char>, k: int, m: int)
    requires
        0 <= k <= m <= t.len(),
    ensures
        crate::results_tui::decimal(t.take(k)) <= crate::results_tui::decimal(t.take(m)),
    decreases m - k,
{
    if k < m {
        lemma_decimal_grows(t, k, m - 1);
        assert(t.take(m).drop_last() =~= t.take(m - 1));
    }
}

/// The value of a decimal digit string, saturating at `u32::MAX`.
fn number_value(t: &Vec<char>) -> (r: u32)
    ensures
        r == leading_number(t@),
{
    let mut v: u32 = 0;
    let mut i: usize = 0;
    assert(t@.take(0) =~= Seq::<char>::empty());
    while i < t.len()
        invariant
            i <= t.len(),
            forall|k: int| 0 <= k < i ==> is_digit(#[trigger] t@[k]),
            v == crate::results_tui::decimal(t@.take(i as int)),
        decreases t.len() - i,
    {
        let c = t[i];
        assert(t@.take(i + 1).drop_last() =~= t@.take(i as int));
        assert(t@.take(i + 1).last() == c);
        if '0' <= c && c <= '9' {
            let d: u32 = (c as u32) - ('0' as u32);
            if v > (u32::MAX - d) / 10 {
                proof {
                    assert(forall|k: int| 0 <= k < i + 1 ==> is_digit(#[trigger] t@[k]));
                    lemma_lead_digits(t@, i + 1);
                    lemma_lead_digits_le(t@);
                    lemma_decimal_grows(t@, i + 1, lead_digits(t@) as int);
                    assert(crate::results_tui::decimal(t@.take(i + 1)) == v * 10 + d);
                }
                return u32::MAX;
            }
            v = v * 10 + d;
        } else {
            proof {
                lemma_lead_digits(t@, i as int);
            }
            return v;
        }
        i = i + 1;
    }
    proof {
        lemma_lead_digits(t@, i as int);
    }
    v
}

fn placeholder(parent: usize, key: Vec<char>, pos: usize) -> (r: Node)
    ensures
        r.parent == parent,
        r.children@.len() == 0,
        node_view(r) == placeholder_v(parent, key@, pos),
{
    let r = Node {
        kind: Vec::new(),
        start: 0,
        end: 0,
        parent,
        key,
        pos,
        scalars: Vec::new(),
        children: Vec::new(),
    };
    assert(r.kind@ =~= Seq::<char>::empty());
    assert(scalars_view(r.scalars@) =~= Seq::<(Seq<char>, ValueV)>::empty());
    assert(r.children@ =~= Seq::<usize>::empty());
    assert(node_view(r) == placeholder_v(parent, key@, pos));
    r
}

fn copy_chars(v: &Vec<char>) -> (r: Vec<char>)
    ensures
        r@ == v@,
{
    let r = crate::text::subrange_of(v, 0, v.len());
    assert(r@ =~= v@);
    r
}

proof fn lemma_nodes_view_push(ns: Seq<Node>, n: Node)
    ensures
        nodes_view(ns.push(n)) == nodes_view(ns).push(node_view(n)),
{
    assert(nodes_view(ns.push(n)) =~= nodes_view(ns).push(node_view(n)));
}

proof fn lemma_nodes_view_update(ns: Seq<Node>, i: int, n: Node)
    requires
        0 <= i < ns.len(),
    ensures
        nodes_view(ns.update(i, n)) == nodes_view(ns).update(i, node_view(n)),
{
    assert(nodes_view(ns.update(i, n)) =~= nodes_view(ns).update(i, node_view(n)));
}

pub open spec fn opt_value_view(v: Option<Value>) -> Option<ValueV> {
    match v {
        Some(x) => Some(value_view(x)),
        None => None,
    }
}

/// The array elements from `q` wrapped as a value's reading.
pub open spec fn array_as_value(a: Option<(int, Seq<NodeV>, Seq<usize>)>) -> Option<(Option<ValueV>, int, Seq<NodeV>, Seq<usize>)> {
    match a {
        None => None,
        Some((q2, ns2, kids2)) => Some((None, q2, ns2, kids2)),
    }
}

/// Reads the value at `p` in field `key` of node `parent`; objects become
/// nodes, arrays contribute each element, scalars are returned.  Returns the
/// scalar (if the value was one) and the index past the value.
fn read_value(
    s: &Vec<char>,
    p: usize,
    nodes: &mut Vec<Node>,
    parent: usize,
    key: &Vec<char>,
    pos: usize,
    kids: &mut Vec<usize>,
) -> (r: Option<(Option<Value>, usize)>)
    requires
        p < s.len(),
        wf_nodes(old(nodes)@),
        parent < old(nodes)@.len(),
        forall|k: int|
            0 <= k < old(kids)@.len() ==> parent < #[trigger] old(kids)@[k] < old(nodes)@.len()
                && old(nodes)@[old(kids)@[k] as int].parent == parent,
    ensures
        wf_nodes(final(nodes)@),
        final(nodes)@.len() >= old(nodes)@.len(),
        forall|j: int| 0 <= j < old(nodes)@.len() ==> #[trigger] final(nodes)@[j] == old(nodes)@[j],
        forall|k: int|
            0 <= k < final(kids)@.len() ==> parent < #[trigger] final(kids)@[k] < final(nodes)@.len()
                && final(nodes)@[final(kids)@[k] as int].parent == parent,
        r matches Some((_, q)) ==> p < q <= s.len(),
        match r {
            Some((v, q)) => value_at(s@, p as int, nodes_view(old(nodes)@), parent, key@, pos, old(kids)@) == Some(
                (opt_value_view(v), q as int, nodes_view(final(nodes)@), final(kids)@),
            ),
            None => value_at(s@, p as int, nodes_view(old(nodes)@), parent, key@, pos, old(kids)@) is None,
        },
    decreases s.len() - p, 1nat,
{
    let c = s[p];
    if c == '{' {
        match read_object(s, p, nodes, parent, key, pos) {
            None => None,
            Some((idx, q)) => {
                kids.push(idx);
                Some((None, q))
            },
        }
    } else if c == '[' {
        let mut q = skip_ws(s, p + 1);
        let mut index: usize = 0;
        if q < s.len() && s[q] == ']' {
            return Some((None, q + 1));
        }
        let ghost target = value_at(s@, p as int, nodes_view(old(nodes)@), parent, key@, pos, old(kids)@);
        assert(q >= s.len() ==> target is None);
        loop
            invariant
                p < q <= s.len(),
                wf_nodes(nodes@),
                parent < old(nodes)@.len(),
                nodes@.len() >= old(nodes)@.len(),
                forall|j: int| 0 <= j < old(nodes)@.len() ==> #[trigger] nodes@[j] == old(nodes)@[j],
                forall|k: int|
                    0 <= k < kids@.len() ==> parent < #[trigger] kids@[k] < nodes@.len()
                        && nodes@[kids@[k] as int].parent == parent,
                q < s.len() ==> target == array_as_value(
                    array_rest(s@, q as int, nodes_view(nodes@), parent, key@, index, kids@),
                ),
                q >= s.len() ==> target is None,
                target == value_at(s@, p as int, nodes_view(old(nodes)@), parent, key@, pos, old(kids)@),
            decreases s.len() - q,
        {
            if q >= s.len() {
                return None;
            }
            if index < usize::MAX {
                index = index + 1;
            }
            match read_value(s, q, nodes, parent, key, index - 1, kids) {
                None => {
                    return None;
                },
                Some((_, nq)) => {
                    q = skip_ws(s, nq);
                },
            }
            if q >= s.len() {
                return None;
            }
            if s[q] == ',' {
                q = skip_ws(s, q + 1);
            } else if s[q] == ']' {
                return Some((None, q + 1));
            } else {
                return None;
            }
        }
    } else if c == '"' {
        match read_string(s, p) {
            None => None,
            Some((t, q)) => Some((Some(Value::Str(t)), q)),
        }
    } else if c == 't' {
        if s.len() - p >= 4 {
            Some((Some(Value::Bool(true)), p + 4))
        } else {
            None
        }
    } else if c == 'f' {
        if s.len() - p >= 5 {
            Some((Some(Value::Bool(false)), p + 5))
        } else {
            None
        }
    } else if c == 'n' {
        if s.len() - p >= 4 {
            Some((Some(Value::Null), p + 4))
        } else {
            None
        }
    } else {
        let (t, q) = read_number(s, p);
        if q == p {
            None
        } else {
            Some((Some(Value::Num(t)), q))
        }
    }
}

/// Reads the object at `p` as a new node under `parent`; returns the new
/// node's index and the index past the object.
fn read_object(
    s: &Vec<char>,
    p: usize,
    nodes: &mut Vec<Node>,
    parent: usize,
    key: &Vec<char>,
    pos: usize,
) -> (r: Option<(usize, usize)>)
    requires
        p < s.len(),
        s@[p as int] == '{',
        wf_nodes(old(nodes)@),
        parent < old(nodes)@.len(),
    ensures
        wf_nodes(final(nodes)@),
        final(nodes)@.len() >= old(nodes)@.len(),
        forall|j: int| 0 <= j < old(nodes)@.len() ==> #[trigger] final(nodes)@[j] == old(nodes)@[j],
        r matches Some((idx, q)) ==> (p < q <= s.len() && old(nodes)@.len() <= idx
            && idx < final(nodes)@.len() && final(nodes)@[idx as int].parent == parent
            && parent < idx),
        match r {
            Some((idx, q)) => object_at(s@, p as int, nodes_view(old(nodes)@), parent, key@, pos) == Some(
                (idx as int, q as int, nodes_view(final(nodes)@)),
            ),
            None => object_at(s@, p as int, nodes_view(old(nodes)@), parent, key@, pos) is None,
        },
    decreases s.len() - p, 0nat,
{
    let idx = nodes.len();
    let ghost target = object_at(s@, p as int, nodes_view(old(nodes)@), parent, key@, pos);
    let ph = placeholder(parent, copy_chars(key), pos);
    proof {
        lemma_nodes_view_push(old(nodes)@, ph);
    }
    nodes.push(ph);
    assert forall|j: int| 0 <= j < old(nodes)@.len() implies #[trigger] nodes@[j] == old(nodes)@[j] by {}
    let mut kind: Vec<char> = Vec::new();
    let mut start: u32 = 0;
    let mut end: u32 = 0;
    let mut scalars: Vec<(Vec<char>, Value)> = Vec::new();
    let mut kids: Vec<usize> = Vec::new();
    let mut q = skip_ws(s, p + 1);
    if q < s.len() && s[q] == '}' {
        return Some((idx, q + 1));
    }
    assert(scalars_view(scalars@) =~= Seq::<(Seq<char>, ValueV)>::empty());
    assert(kind@ =~= Seq::<char>::empty());
    loop
        invariant
            p < q <= s.len(),
            idx == old(nodes)@.len(),
            parent < idx,
            nodes@.len() > idx,
            wf_nodes(nodes@),
            nodes@[idx as int].parent == parent,
            nodes@[idx as int].children@.len() == 0,
            forall|j: int| 0 <= j < old(nodes)@.len() ==> #[trigger] nodes@[j] == old(nodes)@[j],
            forall|k: int|
                0 <= k < kids@.len() ==> idx < #[trigger] kids@[k] < nodes@.len() && nodes@[kids@[k] as int].parent
                    == idx,
            q < s.len() ==> target == object_rest(
                s@,
                q as int,
                nodes_view(nodes@),
                idx as int,
                parent,
                pos,
                kind@,
                start,
                end,
                scalars_view(scalars@),
                kids@,
            ),
            q >= s.len() ==> target is None,
            target == object_at(s@, p as int, nodes_view(old(nodes)@), parent, key@, pos),
        decreases s.len() - q,
    {
        if q >= s.len() {
            return None;
        }
        let (name, after_name) = match read_string(s, q) {
            None => {
                return None;
            },
            Some(x) => x,
        };
        let mut v = skip_ws(s, after_name);
        if v >= s.len() || s[v] != ':' {
            return None;
        }
        v = skip_ws(s, v + 1);
        if v >= s.len() {
            return None;
        }
        let ghost before = nodes@;
        let ghost q_old = q;
        match read_value(s, v, nodes, idx, &name, 0, &mut kids) {
            None => {
                return None;
            },
            Some((scalar, nq)) => {
                assert(nodes@[idx as int] == before[idx as int]);
                match scalar {
                    Some(value) => {
                        if eq_str(&name, "type") {
                            match &value {
                                Value::Str(t) => {
                                    kind = copy_chars(t);
                                },
                                _ => {},
                            }
                        } else if eq_str(&name, "start") {
                            match &value {
                                Value::Num(t) => {
                                    start = number_value(t);
                                },
                                _ => {},
                            }
                        } else if eq_str(&name, "end") {
                            match &value {
                                Value::Num(t) => {
                                    end = number_value(t);
                                },
                                _ => {},
                            }
                        }
                        let ghost sv = scalars@;
                        scalars.push((name, value));
                        assert(scalars_view(scalars@) =~= scalars_view(sv).push((name@, value_view(value))));
                    },
                    None => {},
                }
                q = skip_ws(s, nq);
            },
        }
        if q >= s.len() {
            return None;
        }
        if s[q] == ',' {
            q = skip_ws(s, q + 1);
        } else if s[q] == '}' {
            let node = Node {
                kind,
                start,
                end,
                parent,
                key: copy_chars(&nodes[idx].key),
                pos,
                scalars,
                children: kids,
            };
            let ghost pre = nodes@;
            proof {
                lemma_nodes_view_update(pre, idx as int, node);
            }
            nodes.set(idx, node);
            proof {
                assert forall|j: int| 0 <= j < old(nodes)@.len() implies #[trigger] nodes@[j] == old(nodes)@[j] by {
                    assert(nodes@[j] == pre[j]);
                }
                assert forall|i: int, k: int|
                    0 <= i < nodes@.len() && 0 <= k < nodes@[i].children@.len() implies {
                        let c = #[trigger] nodes@[i].children@[k];
                        &&& i < c < nodes@.len()
                        &&& nodes@[c as int].parent == i
                    } by {
                    if i == idx {
                        let c = nodes@[i].children@[k];
                        assert(kids@[k] == c);
                    } else {
                        assert(nodes@[i] == pre[i]);
                        let c = pre[i].children@[k];
                        assert(i < c < pre.len() && pre[c as int].parent == i);
                        if c == idx {
                        } else {
                            assert(nodes@[c as int] == pre[c as int]);
                        }
                    }
                }
                assert forall|i: int| 0 < i < nodes@.len() implies #[trigger] nodes@[i].parent < i by {
                    if i != idx {
                        assert(nodes@[i] == pre[i]);
                    }
                }
                assert forall|i: int| 0 <= i < nodes@.len() implies #[trigger] nodes@[i].parent < nodes@.len() by {
                    if i != idx {
                        assert(nodes@[i] == pre[i]);
                    }
                }
            }
            return Some((idx, q + 1));
        } else {
            return None;
        }
    }
}

/// The children of a node with every index one lower.
fn shift_children(cs: &Vec<usize>) -> (r: Vec<usize>)
    ensures
        r@ == cs@.map_values(|c: usize| if c == 0 { 0 } else { (c - 1) as usize }),
{
    let mut r: Vec<usize> = Vec::new();
    let mut k: usize = 0;
    while k < cs.len()
        invariant
            k <= cs@.len(),
            r@ == cs@.take(k as int).map_values(|c: usize| if c == 0 { 0 } else { (c - 1) as usize }),
        decreases cs@.len() - k,
    {
        let c = cs[k];
        r.push(if c == 0 { 0 } else { c - 1 });
        assert(cs@.take(k + 1).map_values(|c: usize| if c == 0 { 0 } else { (c - 1) as usize }) =~= cs@.take(
            k as int,
        ).map_values(|c: usize| if c == 0 { 0 } else { (c - 1) as usize }).push(if c == 0 { 0 } else { (c - 1) as usize }));
        k = k + 1;
    }
    assert(cs@.take(k as int) =~= cs@);
    r
}

/// Reads the ESTree JSON text of a program into the tree it describes;
/// text that is not a JSON object yields an empty tree.
pub fn read_ast(text: &str) -> (r: Ast)
    ensures
        r.wf(),
        nodes_view(r.nodes@) == tree_of(text@),
{
    let s = chars_of(text);
    let mut nodes: Vec<Node> = Vec::new();
    let p = skip_ws(&s, 0);
    if p >= s.len() || s[p] != '{' {
        let r = Ast::empty();
        assert(nodes_view(r.nodes@) =~= Seq::<NodeV>::empty());
        return r;
    }
    // The root is its own parent: read it under a temporary anchor node.
    let anchor_key: Vec<char> = Vec::new();
    assert(anchor_key@ =~= Seq::<char>::empty());
    let anchor = placeholder(0, anchor_key, 0);
    proof {
        lemma_nodes_view_push(nodes@, anchor);
        assert(nodes_view(nodes@) =~= Seq::<NodeV>::empty());
    }
    nodes.push(anchor);
    assert(nodes_view(nodes@) =~= seq![placeholder_v(0, Seq::empty(), 0)]);
    let empty_key: Vec<char> = Vec::new();
    assert(empty_key@ =~= Seq::<char>::empty());
    match read_object(&s, p, &mut nodes, 0, &empty_key, 0) {
        None => {
            let r = Ast::empty();
            assert(nodes_view(r.nodes@) =~= Seq::<NodeV>::empty());
            r
        },
        Some(_) => {
            let ghost full = nodes@;
            let ghost n = full.len();
            // Drop the anchor: shift every index down by one.
            let mut rev: Vec<Node> = Vec::new();
            while nodes.len() > 1
                invariant
                    1 <= nodes@.len() <= n,
                    n == full.len(),
                    wf_nodes(full),
                    nodes@ == full.take(nodes@.len() as int),
                    rev@.len() + nodes@.len() == n,
                    forall|k: int| 0 <= k < rev@.len() ==> #[trigger] node_view(rev@[k]) == shift_node(
                        node_view(full[n - 1 - k]),
                    ),
                decreases nodes@.len(),
            {
                let ghost m = nodes@.len();
                let mut node = nodes.pop().unwrap();
                assert(node == full[m - 1]);
                assert(nodes@ =~= full.take(m - 1));
                node.parent = if node.parent == 0 {
                    0
                } else {
                    node.parent - 1
                };
                node.children = shift_children(&node.children);
                let ghost prev = rev@;
                rev.push(node);
                proof {
                    assert(node_view(node) == shift_node(node_view(full[m - 1])));
                    assert forall|k: int| 0 <= k < rev@.len() implies #[trigger] node_view(rev@[k]) == shift_node(
                        node_view(full[n - 1 - k]),
                    ) by {
                        if k < prev.len() {
                            assert(rev@[k] == prev[k]);
                        }
                    }
                }
            }
            let mut rest: Vec<Node> = Vec::new();
            while rev.len() > 0
                invariant
                    n == full.len(),
                    n >= 1,
                    rest@.len() + rev@.len() == n - 1,
                    forall|k: int| 0 <= k < rev@.len() ==> #[trigger] node_view(rev@[k]) == shift_node(
                        node_view(full[n - 1 - k]),
                    ),
                    forall|j: int| 0 <= j < rest@.len() ==> #[trigger] node_view(rest@[j]) == shift_node(
                        node_view(full[j + 1]),
                    ),
                decreases rev@.len(),
            {
                let ghost m = rev@.len();
                let ghost rv = rev@;
                let node = rev.pop().unwrap();
                assert(node == rv[m - 1]);
                assert(rev@ =~= rv.drop_last());
                let ghost prev = rest@;
                rest.push(node);
                proof {
                    assert(node_view(node) == shift_node(node_view(full[n - 1 - (m - 1)])));
                    assert forall|j: int| 0 <= j < rest@.len() implies #[trigger] node_view(rest@[j]) == shift_node(
                        node_view(full[j + 1]),
                    ) by {
                        if j < prev.len() {
                            assert(rest@[j] == prev[j]);
                        }
                    }
                    assert forall|k: int| 0 <= k < rev@.len() implies #[trigger] node_view(rev@[k]) == shift_node(
                        node_view(full[n - 1 - k]),
                    ) by {
                        assert(rev@[k] == rv[k]);
                    }
                }
            }
            proof {
                assert(nodes_view(rest@) =~= Seq::new((nodes_view(full).len() - 1) as nat, |j: int| shift_node(nodes_view(full)[j + 1])));
                assert forall|j: int| 0 <= j < rest@.len() implies #[trigger] rest@[j].parent == (if full[j + 1].parent == 0 {
                    0
                } else {
                    full[j + 1].parent - 1
                }) by {
                    assert(node_view(rest@[j]).parent == rest@[j].parent);
                }
                assert forall|j: int, m: int| 0 <= j < rest@.len() && 0 <= m < rest@[j].children@.len() implies #[trigger] rest@[j].children@[m]
                    + 1 == full[j + 1].children@[m] by {
                    assert(node_view(rest@[j]).children == rest@[j].children@);
                    let c = full[j + 1].children@[m];
                    assert(j + 1 < c);
                }
                assert forall|j: int| 0 <= j < rest@.len() implies #[trigger] rest@[j].children@.len() == full[j + 1].children@.len() by {
                    assert(node_view(rest@[j]).children == rest@[j].children@);
                }
                lemma_shifted_wf(full, rest@);
            }
            Ast { nodes: rest }
        },
    }
}

/// `rest` is `nodes` without the anchor at index 0 (indices shifted down by one).
pub open spec fn wf_shifted(nodes: Seq<Node>, rest: Seq<Node>) -> bool {
    &&& rest.len() < nodes.len()
    &&& forall|j: int|
        0 <= j < rest.len() ==> #[trigger] rest[j].parent == (if nodes[j + 1].parent == 0 {
            0
        } else {
            nodes[j + 1].parent - 1
        })
    &&& forall|j: int|
        0 <= j < rest.len() ==> #[trigger] rest[j].children@.len() == nodes[j + 1].children@.len()
    &&& forall|j: int, m: int|
        0 <= j < rest.len() && 0 <= m < rest[j].children@.len() ==> #[trigger] rest[j].children@[m]
            + 1 == nodes[j + 1].children@[m]
}

/// Dropping the anchor keeps the tree well formed.
proof fn lemma_shifted_wf(nodes: Seq<Node>, rest: Seq<Node>)
    requires
        wf_nodes(nodes),
        wf_shifted(nodes, rest),
        rest.len() + 1 == nodes.len(),
    ensures
        wf_nodes(rest),
{
    assert forall|j: int| 0 < j < rest.len() implies #[trigger] rest[j].parent < j by {
        assert(nodes[j + 1].parent < j + 1);
    }
    assert forall|j: int| 0 <= j < rest.len() implies #[trigger] rest[j].parent < rest.len() by {
        assert(nodes[j + 1].parent < nodes.len());
    }
    assert forall|j: int, m: int|
        0 <= j < rest.len() && 0 <= m < rest[j].children@.len() implies {
            let c = #[trigger] rest[j].children@[m];
            &&& j < c < rest.len()
            &&& rest[c as int].parent == j
        } by {
        let c = rest[j].children@[m];
        let d = nodes[j + 1].children@[m];
        assert(c + 1 == d);
        assert(j + 1 < d < nodes.len() && nodes[d as int].parent == j + 1);
        assert(rest[c as int].parent == nodes[c + 1].parent - 1);
    }
}

} // verus!
