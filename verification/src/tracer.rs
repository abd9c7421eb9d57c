//! Hierarchical tracer for detailed emulator events.
//!
//! The tracer is organized into a tree of trace elements, one per emulator
//! component ("cpu", its child "regs", and so on). Construction takes a list
//! of dot-separated path expressions; an expression enables its own element
//! and every descendant registered under it. Events emitted against enabled
//! elements are collected as formatted lines in an output buffer that the
//! host drains and writes; disabled elements swallow their events.

use vstd::prelude::*;
use vstd::string::StrSliceExecFns;
use vstd::string::StringExecFns;

use crate::hexfmt::{pad12, push_char, spec_pad12};

verus! {

/// Handle for a trace element.
#[derive(Debug, Clone, Copy, PartialEq, Eq, Structural)]
pub struct TraceElementId(pub(crate) usize);

impl TraceElementId {
    /// The element index this handle stands for; the all-ones value is the
    /// disabled sentinel.
    pub closed spec fn spec_idx(self) -> int {
        self.0 as int
    }

    pub open spec fn spec_enabled(self) -> bool {
        self.spec_idx() != usize::MAX as int
    }

    /// Whether this element is enabled for emitting trace data.
    pub fn enabled(&self) -> (r: bool)
        ensures
            r == self.spec_enabled(),
    {
        self.0 != usize::MAX
    }
}

/// A single element in the trace hierarchy.
struct TraceElement {
    /// The full hierarchical name of this element.
    full_name: String,
    /// The children of this element, keyed by their local name.
    children: Vec<(String, usize)>,
    /// Whether all children of this element are also enabled for tracing.
    all_children_enabled: bool,
}

/// Mathematical image of one trace element.
#[verifier::ext_equal]
pub struct TraceElementView {
    pub full_name: Seq<char>,
    pub children: Seq<(Seq<char>, int)>,
    pub all_children_enabled: bool,
}

impl View for TraceElement {
    type V = TraceElementView;

    closed spec fn view(&self) -> TraceElementView {
        TraceElementView {
            full_name: self.full_name@,
            children: self.children@.map_values(|p: (String, usize)| (p.0@, p.1 as int)),
            all_children_enabled: self.all_children_enabled,
        }
    }
}

/// The views of a sequence of elements.
spec fn views_of(elements: Seq<TraceElement>) -> Seq<TraceElementView> {
    elements.map_values(|e: TraceElement| e@)
}

/// Mathematical image of the tracer: the element tree (index 0 is the root)
/// and the buffered output lines.
#[verifier::ext_equal]
pub struct TracerView {
    pub elements: Seq<TraceElementView>,
    pub out: Seq<Seq<char>>,
}

/// A tracer for detailed emulator events. Events are buffered as formatted
/// lines; the host drains them with `take_output`.
pub struct Tracer {
    elements: Vec<TraceElement>,
    out: Vec<String>,
}

impl View for Tracer {
    type V = TracerView;

    closed spec fn view(&self) -> TracerView {
        TracerView { elements: views_of(self.elements@), out: self.out.deep_view() }
    }
}

/// First binding of `name` in an association list of children.
pub open spec fn spec_assoc(children: Seq<(Seq<char>, int)>, name: Seq<char>) -> Option<int>
    decreases children.len(),
{
    if children.len() == 0 {
        None
    } else if children[0].0 == name {
        Some(children[0].1)
    } else {
        spec_assoc(children.drop_first(), name)
    }
}

/// The full name of a child: the parent's name, a dot, and the local name;
/// the anonymous root contributes no dot.
pub open spec fn spec_join_name(parent: Seq<char>, name: Seq<char>) -> Seq<char> {
    if parent.len() == 0 {
        name
    } else {
        parent + seq!['.'] + name
    }
}

/// The element tree after adding a fresh child named `name` under `parent`.
pub open spec fn spec_new_child(
    elems: Seq<TraceElementView>,
    parent: int,
    name: Seq<char>,
    all_enabled: bool,
) -> Seq<TraceElementView> {
    let id = elems.len() as int;
    let p = elems[parent];
    elems.update(parent, TraceElementView { children: p.children.push((name, id)), ..p }).push(
        TraceElementView {
            full_name: spec_join_name(p.full_name, name),
            children: Seq::empty(),
            all_children_enabled: all_enabled,
        },
    )
}

/// Walking a split path expression from `parent`, creating the elements the
/// tree lacks; yields the tree and the element the walk ends on.
pub open spec fn spec_add_parts(
    elems: Seq<TraceElementView>,
    parent: int,
    parts: Seq<Seq<char>>,
) -> (Seq<TraceElementView>, int)
    decreases parts.len(),
{
    if parts.len() == 0 {
        (elems, parent)
    } else {
        match spec_assoc(elems[parent].children, parts[0]) {
            Some(id) => spec_add_parts(elems, id, parts.drop_first()),
            None => spec_add_parts(
                spec_new_child(elems, parent, parts[0], false),
                elems.len() as int,
                parts.drop_first(),
            ),
        }
    }
}

/// Splitting a path expression at dots, scanned from the front.
pub open spec fn spec_split_rec(s: Seq<char>, cur: Seq<char>, acc: Seq<Seq<char>>) -> Seq<
    Seq<char>,
>
    decreases s.len(),
{
    if s.len() == 0 {
        acc.push(cur)
    } else if s[0] == '.' {
        spec_split_rec(s.drop_first(), Seq::empty(), acc.push(cur))
    } else {
        spec_split_rec(s.drop_first(), cur.push(s[0]), acc)
    }
}

/// The dot-separated parts of a path expression.
pub open spec fn spec_split_path(s: Seq<char>) -> Seq<Seq<char>> {
    spec_split_rec(s, Seq::empty(), Seq::empty())
}

/// The element tree after enabling one path expression: the path is created
/// where missing, and its leaf is marked as enabling all descendants.
pub open spec fn spec_enable_expr(elems: Seq<TraceElementView>, expr: Seq<char>) -> Seq<
    TraceElementView,
> {
    let r = spec_add_parts(elems, 0, spec_split_path(expr));
    let leaf = r.1;
    r.0.update(leaf, TraceElementView { all_children_enabled: true, ..r.0[leaf] })
}

/// The anonymous root element.
pub open spec fn spec_root_element() -> TraceElementView {
    TraceElementView { full_name: Seq::empty(), children: Seq::empty(), all_children_enabled: false }
}

/// The element tree built from a list of enabled path expressions.
pub open spec fn spec_build_tree(exprs: Seq<Seq<char>>) -> Seq<TraceElementView>
    decreases exprs.len(),
{
    if exprs.len() == 0 {
        seq![spec_root_element()]
    } else {
        spec_enable_expr(spec_build_tree(exprs.drop_last()), exprs.last())
    }
}

/// Registering an element named `name` under the element at `parent_idx`:
/// a disabled or unknown parent yields the disabled sentinel; an existing
/// child is returned as-is; a parent that enables all children gets a fresh
/// enabled child; any other parent yields the disabled sentinel.
pub open spec fn spec_register_element(
    elems: Seq<TraceElementView>,
    name: Seq<char>,
    parent_idx: int,
) -> (Seq<TraceElementView>, int) {
    if parent_idx == usize::MAX as int || parent_idx < 0 || parent_idx >= elems.len() {
        (elems, usize::MAX as int)
    } else {
        match spec_assoc(elems[parent_idx].children, name) {
            Some(id) => (elems, id),
            None => {
                if elems[parent_idx].all_children_enabled {
                    (spec_new_child(elems, parent_idx, name, true), elems.len() as int)
                } else {
                    (elems, usize::MAX as int)
                }
            },
        }
    }
}

/// The parent index an optional parent handle stands for: the root when
/// absent, the handle's index otherwise.
pub open spec fn spec_parent_idx(parent: Option<TraceElementId>) -> int {
    match parent {
        None => 0,
        Some(p) => p.spec_idx(),
    }
}

/// Every child index stored in the tree points at an element of the tree.
pub open spec fn spec_tree_wf(elems: Seq<TraceElementView>) -> bool {
    forall|i: int, j: int|
        0 <= i < elems.len() && 0 <= j < elems[i].children.len() ==> 0 <= (
        #[trigger] elems[i].children[j]).1 < elems.len()
}

/// A binding found in a child table lies within the bounds that hold of
/// every binding of the table.
proof fn lemma_assoc_in_range(children: Seq<(Seq<char>, int)>, name: Seq<char>, hi: int)
    requires
        forall|j: int| 0 <= j < children.len() ==> 0 <= (#[trigger] children[j]).1 < hi,
        spec_assoc(children, name) is Some,
    ensures
        0 <= spec_assoc(children, name).unwrap() < hi,
    decreases children.len(),
{
    if children.len() > 0 && !(children[0].0 == name) {
        assert(forall|j: int|
            0 <= j < children.drop_first().len() ==> 0 <= (
            #[trigger] children.drop_first()[j]).1 < hi);
        lemma_assoc_in_range(children.drop_first(), name, hi);
    }
}

/// Adding a fresh child keeps the tree well-formed.
proof fn lemma_new_child_wf(
    elems: Seq<TraceElementView>,
    parent: int,
    name: Seq<char>,
    all_enabled: bool,
)
    requires
        spec_tree_wf(elems),
        0 <= parent < elems.len(),
    ensures
        spec_tree_wf(spec_new_child(elems, parent, name, all_enabled)),
{
    let post = spec_new_child(elems, parent, name, all_enabled);
    assert forall|i: int, j: int|
        0 <= i < post.len() && 0 <= j < post[i].children.len() implies 0 <= (
    #[trigger] post[i].children[j]).1 < post.len() by {
        if i < elems.len() {
            if i == parent {
                if j < elems[parent].children.len() {
                    assert(post[i].children[j] == elems[i].children[j]);
                }
            } else {
                assert(post[i].children[j] == elems[i].children[j]);
            }
        }
    }
}

/// Split a dot-separated path expression into its parts.
fn split_path(s: &str) -> (parts: Vec<String>)
    ensures
        parts.deep_view() == spec_split_path(s@),
{
    let n = s.unicode_len();
    let mut parts: Vec<String> = Vec::new();
    let mut cur = String::new();
    let mut i: usize = 0;
    proof {
        assert(parts.deep_view() =~~= Seq::<Seq<char>>::empty());
        assert(s@.skip(0) =~= s@);
    }
    while i < n
        invariant
            i <= n,
            n == s@.len(),
            spec_split_rec(s@.skip(i as int), cur@, parts.deep_view()) == spec_split_path(s@),
        decreases n - i,
    {
        let ghost pre_rest = s@.skip(i as int);
        let ghost pre_parts = parts.deep_view();
        let ghost pre_cur = cur@;
        let c = s.get_char(i);
        if c == '.' {
            parts.push(cur);
            cur = String::new();
            proof {
                assert(parts.deep_view() =~~= pre_parts.push(pre_cur));
            }
        } else {
            push_char(&mut cur, c);
        }
        i += 1;
        proof {
            assert(pre_rest.drop_first() =~= s@.skip(i as int));
        }
    }
    proof {
        assert(s@.skip(n as int) =~= Seq::<char>::empty());
    }
    let ghost pre_parts = parts.deep_view();
    let ghost pre_cur = cur@;
    parts.push(cur);
    proof {
        assert(parts.deep_view() =~~= pre_parts.push(pre_cur));
    }
    parts
}

/// Join a parent path and a local name with a dot.
fn join_name(parent: &str, name: &str) -> (r: String)
    ensures
        r@ == spec_join_name(parent@, name@),
{
    if parent.unicode_len() == 0 {
        proof {
            assert(parent@ =~= Seq::<char>::empty());
        }
        name.to_owned()
    } else {
        let mut r = parent.to_owned();
        push_char(&mut r, '.');
        r.append(name);
        proof {
            assert(r@ =~= spec_join_name(parent@, name@));
        }
        r
    }
}

/// A formatted trace line: the bracketed tag, the element path padded to 12
/// characters, and the message.
pub open spec fn spec_trace_line(path: Seq<char>, msg: Seq<char>) -> Seq<char> {
    spec_line_prefix(path) + msg
}

/// The `[TRACE][<padded path>] ` prefix of a trace line.
pub open spec fn spec_line_prefix(path: Seq<char>) -> Seq<char> {
    "[TRACE]["@ + spec_pad12(path) + "] "@
}

/// Build the `[TRACE][<padded path>] ` prefix of a trace line.
pub fn line_prefix(path: &str) -> (r: String)
    ensures
        r@ == spec_line_prefix(path@),
{
    let mut line = String::from_str("[TRACE][");
    let padded = pad12(path);
    line.append(padded.as_str());
    line.append("] ");
    proof {
        assert(line@ =~= spec_line_prefix(path@));
    }
    line
}

/// Build the trace line for a message emitted against an element path.
pub fn format_trace_line(path: &str, message: &str) -> (r: String)
    ensures
        r@ == spec_trace_line(path@, message@),
{
    let mut line = line_prefix(path);
    line.append(message);
    proof {
        assert(line@ =~= spec_trace_line(path@, message@));
    }
    line
}

impl Tracer {
    /// Create a new tracer with the given trace element path expressions
    /// enabled; the output buffer starts empty.
    pub fn new(enabled_trace_elements: &Vec<String>) -> (tracer: Tracer)
        ensures
            tracer@.elements == spec_build_tree(enabled_trace_elements.deep_view()),
            tracer@.out == Seq::<Seq<char>>::empty(),
    {
        let ghost exprs = enabled_trace_elements.deep_view();
        let mut elements: Vec<TraceElement> = Vec::new();
        elements.push(
            TraceElement {
                full_name: String::new(),
                children: Vec::new(),
                all_children_enabled: false,
            },
        );
        proof {
            assert(views_of(elements@) =~~= seq![spec_root_element()]);
            assert(exprs.take(0) =~~= Seq::<Seq<char>>::empty());
        }
        let mut idx: usize = 0;
        while idx < enabled_trace_elements.len()
            invariant
                idx <= enabled_trace_elements.len(),
                exprs == enabled_trace_elements.deep_view(),
                exprs.len() == enabled_trace_elements.len(),
                elements@.len() >= 1,
                spec_tree_wf(views_of(elements@)),
                views_of(elements@) == spec_build_tree(exprs.take(idx as int)),
            decreases enabled_trace_elements.len() - idx,
        {
            let ghost pre = views_of(elements@);
            let expr = &enabled_trace_elements[idx];
            proof {
                assert(expr@ == exprs[idx as int]);
            }
            let leaf = Self::walk_create(&mut elements, expr.as_str());
            // Every child of the expression's leaf is enabled for tracing
            let ghost mid = views_of(elements@);
            let p = &mut elements[leaf];
            p.all_children_enabled = true;
            proof {
                assert(views_of(elements@) =~~= mid.update(
                    leaf as int,
                    TraceElementView { all_children_enabled: true, ..mid[leaf as int] },
                ));
                assert(views_of(elements@) =~~= spec_enable_expr(pre, exprs[idx as int]));
                assert(exprs.take(idx as int + 1).drop_last() =~~= exprs.take(idx as int));
                assert(exprs.take(idx as int + 1).last() == exprs[idx as int]);
                assert(spec_tree_wf(views_of(elements@)));
            }
            idx += 1;
        }
        proof {
            assert(exprs.take(exprs.len() as int) =~~= exprs);
        }
        let tracer = Tracer { elements, out: Vec::new() };
        proof {
            assert(tracer@.out =~~= Seq::<Seq<char>>::empty());
        }
        tracer
    }

    /// Walk one path expression from the root, creating the elements the
    /// tree lacks, and return the element index the walk ends on.
    fn walk_create(elements: &mut Vec<TraceElement>, expr: &str) -> (leaf: usize)
        requires
            old(elements)@.len() >= 1,
            spec_tree_wf(views_of(old(elements)@)),
        ensures
            ({
                let r = spec_add_parts(views_of(old(elements)@), 0, spec_split_path(expr@));
                views_of(final(elements)@) == r.0 && leaf as int == r.1
                    && leaf < final(elements)@.len()
            }),
            spec_tree_wf(views_of(final(elements)@)),
    {
        let ghost orig = views_of(elements@);
        let ghost all_parts = spec_split_path(expr@);
        let parts = split_path(expr);
        let mut parent: usize = 0;
        let mut j: usize = 0;
        proof {
            assert(all_parts.skip(0) =~~= all_parts);
        }
        while j < parts.len()
            invariant
                j <= parts.len(),
                parts.deep_view() == all_parts,
                parent < elements@.len(),
                spec_tree_wf(views_of(elements@)),
                spec_add_parts(views_of(elements@), parent as int, all_parts.skip(j as int))
                    == spec_add_parts(orig, 0, all_parts),
            decreases parts.len() - j,
        {
            let ghost pre = views_of(elements@);
            let ghost rest = all_parts.skip(j as int);
            let part = &parts[j];
            proof {
                assert(part@ == rest[0]);
            }
            let found = Self::find_child(&elements[parent], part);
            proof {
                assert(pre[parent as int] == elements@[parent as int]@);
            }
            match found {
                Some(existing) => {
                    proof {
                        lemma_assoc_in_range(pre[parent as int].children, part@, pre.len() as int);
                    }
                    parent = existing;
                },
                None => {
                    proof {
                        lemma_new_child_wf(pre, parent as int, part@, false);
                    }
                    let child = Self::create_child(elements, parent, part, false);
                    parent = child;
                },
            }
            j += 1;
            proof {
                assert(rest.drop_first() =~~= all_parts.skip(j as int));
            }
        }
        proof {
            assert(all_parts.skip(parts@.len() as int) =~~= Seq::<Seq<char>>::empty());
        }
        parent
    }

    /// Look a local name up in an element's child table.
    fn find_child(element: &TraceElement, name: &String) -> (r: Option<usize>)
        ensures
            match r {
                Some(id) => spec_assoc(element@.children, name@) == Some(id as int),
                None => spec_assoc(element@.children, name@) is None,
            },
    {
        let ghost children = element@.children;
        proof {
            assert(children.skip(0) =~~= children);
        }
        let mut i: usize = 0;
        while i < element.children.len()
            invariant
                i <= element.children.len(),
                children == element@.children,
                children.len() == element.children.len(),
                spec_assoc(children.skip(i as int), name@) == spec_assoc(children, name@),
            decreases element.children.len() - i,
        {
            let pair = &element.children[i];
            proof {
                assert(children.skip(i as int)[0] == (pair.0@, pair.1 as int));
            }
            if pair.0 == *name {
                return Some(pair.1);
            }
            i += 1;
            proof {
                assert(children.skip(i - 1).drop_first() =~~= children.skip(i as int));
            }
        }
        proof {
            assert(children.skip(children.len() as int) =~~= Seq::<(Seq<char>, int)>::empty());
        }
        None
    }

    /// Append a fresh child named `name` under the element at `parent`.
    fn create_child(
        elements: &mut Vec<TraceElement>,
        parent: usize,
        name: &String,
        all_enabled: bool,
    ) -> (child: usize)
        requires
            parent < old(elements)@.len(),
        ensures
            views_of(final(elements)@) == spec_new_child(
                views_of(old(elements)@),
                parent as int,
                name@,
                all_enabled,
            ),
            child as int == old(elements)@.len(),
            child < final(elements)@.len(),
    {
        let ghost pre = views_of(elements@);
        let child = elements.len();
        let full_name = join_name(elements[parent].full_name.as_str(), name.as_str());
        let p = &mut elements[parent];
        p.children.push((name.clone(), child));
        elements.push(
            TraceElement { full_name, children: Vec::new(), all_children_enabled: all_enabled },
        );
        proof {
            assert(views_of(elements@) =~~= spec_new_child(
                pre,
                parent as int,
                name@,
                all_enabled,
            ));
        }
        child
    }

    /// Register a new trace element and return a handle for future trace
    /// calls; the element tree changes exactly as `spec_register_element`
    /// describes, and no output is emitted.
    pub fn register_element(&mut self, name: &str, parent: Option<TraceElementId>) -> (r:
        TraceElementId)
        ensures
            ({
                let reg = spec_register_element(
                    old(self)@.elements,
                    name@,
                    spec_parent_idx(parent),
                );
                final(self)@.elements == reg.0 && r.spec_idx() == reg.1
            }),
            final(self)@.out == old(self)@.out,
    {
        let parent = match parent {
            Some(p) => p,
            None => TraceElementId(0),
        };
        if parent.0 == usize::MAX || parent.0 >= self.elements.len() {
            // Child is disabled if the parent is not enabled
            return TraceElementId(usize::MAX);
        }
        let owned_name = name.to_owned();
        let found = Self::find_child(&self.elements[parent.0], &owned_name);
        proof {
            assert(self@.elements[parent.0 as int] == self.elements@[parent.0 as int]@);
        }
        match found {
            Some(existing) => TraceElementId(existing),
            None => {
                if self.elements[parent.0].all_children_enabled {
                    // The parent automatically creates and enables any
                    // additional children
                    let child = Self::create_child(
                        &mut self.elements,
                        parent.0,
                        &owned_name,
                        true,
                    );
                    TraceElementId(child)
                } else {
                    TraceElementId(usize::MAX)
                }
            },
        }
    }

    /// The full path of the element a handle stands for; the empty string
    /// for the disabled sentinel or an unknown handle.
    pub fn path_of(&self, element: TraceElementId) -> (r: String)
        ensures
            r@ == if element.spec_enabled() && element.spec_idx() < self@.elements.len() {
                self@.elements[element.spec_idx()].full_name
            } else {
                Seq::<char>::empty()
            },
    {
        if element.0 != usize::MAX && element.0 < self.elements.len() {
            self.elements[element.0].full_name.clone()
        } else {
            let r = String::new();
            proof {
                assert(r@ =~= Seq::<char>::empty());
            }
            r
        }
    }

    /// Emit an event against an element: enabled elements append one
    /// formatted line to the output buffer, disabled or unknown elements
    /// swallow the event. The element tree never changes.
    pub fn trace_event(&mut self, element: TraceElementId, message: &str)
        ensures
            final(self)@.elements == old(self)@.elements,
            final(self)@.out == if element.spec_enabled() && element.spec_idx() < old(
                self,
            )@.elements.len() {
                old(self)@.out.push(
                    spec_trace_line(old(self)@.elements[element.spec_idx()].full_name, message@),
                )
            } else {
                old(self)@.out
            },
    {
        if element.0 == usize::MAX || element.0 >= self.elements.len() {
            return ;
        }
        proof {
            assert(self@.elements[element.spec_idx()] == self.elements@[element.0 as int]@);
        }
        let line = format_trace_line(self.elements[element.0].full_name.as_str(), message);
        self.out.push(line);
        proof {
            assert(self.out.deep_view() =~~= old(self)@.out.push(
                spec_trace_line(old(self)@.elements[element.spec_idx()].full_name, message@),
            ));
        }
    }

    /// Append already-formatted lines to the output buffer, emptying the
    /// given vector.
    pub fn absorb_lines(&mut self, lines: &mut Vec<String>)
        ensures
            final(self)@.elements == old(self)@.elements,
            final(self)@.out == old(self)@.out + old(lines).deep_view(),
            final(lines)@.len() == 0,
    {
        self.out.append(lines);
        proof {
            assert(self.out.deep_view() =~~= old(self)@.out + old(lines).deep_view());
        }
    }

    /// Hand the buffered output lines to the caller, leaving the buffer
    /// empty. The element tree never changes.
    pub fn take_output(&mut self) -> (r: Vec<String>)
        ensures
            final(self)@.elements == old(self)@.elements,
            final(self)@.out == Seq::<Seq<char>>::empty(),
            r.deep_view() == old(self)@.out,
    {
        let mut taken: Vec<String> = Vec::new();
        core::mem::swap(&mut taken, &mut self.out);
        proof {
            assert(self.out.deep_view() =~~= Seq::<Seq<char>>::empty());
        }
        taken
    }
}

/// Trait for values that can be traced: each such value renders as a fixed
/// line of text for the register tracing system.
pub trait TraceableValue: Sized {
    /// The text the value renders as.
    spec fn spec_trace_repr(&self) -> Seq<char>;

    /// Render the value for trace output.
    fn fmt_trace(&self) -> (r: String)
        ensures
            r@ == self.spec_trace_repr(),
    ;
}

/// A CPU register that emits one trace event for every write, when its
/// trace element is enabled.
pub struct TraceableReg<T> {
    name: String,
    prefix: String,
    enabled: bool,
    value: T,
}

impl<T: TraceableValue + Copy> TraceableReg<T> {
    /// The value the register holds.
    pub closed spec fn spec_value(self) -> T {
        self.value
    }

    /// The register's local name.
    pub closed spec fn spec_name(self) -> Seq<char> {
        self.name@
    }

    /// The trace line prefix the register was registered under.
    pub closed spec fn spec_prefix(self) -> Seq<char> {
        self.prefix@
    }

    /// Whether writes to the register are traced.
    pub closed spec fn spec_enabled(self) -> bool {
        self.enabled
    }

    /// The name, prefix and enablement of two register states agree; only
    /// the held value and emitted events may differ.
    pub open spec fn same_shape(pre: Self, post: Self) -> bool {
        post.spec_name() == pre.spec_name() && post.spec_prefix() == pre.spec_prefix()
            && post.spec_enabled() == pre.spec_enabled()
    }

    /// The one output line a traced write of `v` emits.
    pub open spec fn spec_line(self, v: T) -> Seq<char> {
        self.spec_prefix() + "      "@ + self.spec_name() + " = "@ + v.spec_trace_repr()
    }

    /// The output lines a write of `v` emits: exactly one when the register
    /// is traced, none otherwise.
    pub open spec fn spec_emits(self, v: T) -> Seq<Seq<char>> {
        if self.spec_enabled() {
            seq![self.spec_line(v)]
        } else {
            Seq::empty()
        }
    }

    /// Create a new traceable register holding `init`, registered under
    /// `trace_parent` in the tracer's element tree.
    pub fn new(name: &str, init: T, tracer: &mut Tracer, trace_parent: Option<
        TraceElementId,
    >) -> (r: TraceableReg<T>)
        ensures
            ({
                let reg = spec_register_element(
                    old(tracer)@.elements,
                    name@,
                    spec_parent_idx(trace_parent),
                );
                final(tracer)@.elements == reg.0 && r.spec_enabled() == (reg.1
                    != usize::MAX as int) && ((r.spec_enabled() && reg.1 < reg.0.len())
                    ==> r.spec_prefix() == spec_line_prefix(reg.0[reg.1].full_name))
            }),
            final(tracer)@.out == old(tracer)@.out,
            r.spec_value() == init,
            r.spec_name() == name@,
    {
        let element = tracer.register_element(name, trace_parent);
        let enabled = element.enabled();
        let path = tracer.path_of(element);
        let prefix = line_prefix(path.as_str());
        TraceableReg { name: name.to_owned(), prefix, enabled, value: init }
    }

    /// The current value of the register.
    pub fn get(&self) -> (r: T)
        ensures
            r == self.spec_value(),
    {
        self.value
    }

    /// Write a new value into the register; a traced register hands back
    /// the one line this mutation emits.
    pub fn set(&mut self, value: T) -> (line: Option<String>)
        ensures
            final(self).spec_value() == value,
            Self::same_shape(*old(self), *final(self)),
            match line {
                Some(l) => old(self).spec_enabled() && l@ == old(self).spec_line(value),
                None => !old(self).spec_enabled(),
            },
    {
        self.value = value;
        if self.enabled {
            let mut l = self.prefix.clone();
            l.append("      ");
            l.append(self.name.as_str());
            l.append(" = ");
            let repr = value.fmt_trace();
            l.append(repr.as_str());
            proof {
                assert(l@ =~= old(self).spec_line(value));
            }
            Some(l)
        } else {
            None
        }
    }
}

impl TraceableValue for u8 {
    open spec fn spec_trace_repr(&self) -> Seq<char> {
        crate::hexfmt::spec_hex_u8(*self)
    }

    fn fmt_trace(&self) -> (r: String)
        ensures
            r@ == self.spec_trace_repr(),
    {
        crate::hexfmt::hex_u8(*self)
    }
}

impl TraceableValue for u16 {
    open spec fn spec_trace_repr(&self) -> Seq<char> {
        crate::hexfmt::spec_hex_u16(*self)
    }

    fn fmt_trace(&self) -> (r: String)
        ensures
            r@ == self.spec_trace_repr(),
    {
        crate::hexfmt::hex_u16(*self)
    }
}

} // verus!
