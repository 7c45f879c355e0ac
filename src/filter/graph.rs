use vstd::prelude::*;
use vstd::std_specs::iter::IteratorSpec;
use vstd::string::*;

use crate::error::{error_of, outcome_of, Error, INVALID_ARGUMENT_CODE};

verus! {

/// A filter descriptor, named as the engine's filter table names it.
pub struct Filter {
    name: String,
}

impl View for Filter {
    type V = Seq<char>;

    closed spec fn view(&self) -> Seq<char> {
        self.name@
    }
}

impl Filter {
    pub fn new(name: &str) -> (f: Filter)
        ensures
            f@ == name@,
    {
        Filter { name: name.to_owned() }
    }

    pub fn name(&self) -> (r: &str)
        ensures
            r@ == self@,
    {
        self.name.as_str()
    }
}

/// A processing node of a graph: the filter it runs, its unique name and its
/// textual arguments.
pub struct Node {
    filter: String,
    name: String,
    args: String,
}

pub ghost struct NodeView {
    pub filter: Seq<char>,
    pub name: Seq<char>,
    pub args: Seq<char>,
}

impl View for Node {
    type V = NodeView;

    closed spec fn view(&self) -> NodeView {
        NodeView { filter: self.filter@, name: self.name@, args: self.args@ }
    }
}

impl Node {
    pub fn name(&self) -> (r: &str)
        ensures
            r@ == self@.name,
    {
        self.name.as_str()
    }

    pub fn filter(&self) -> (r: &str)
        ensures
            r@ == self@.filter,
    {
        self.filter.as_str()
    }

    pub fn args(&self) -> (r: &str)
        ensures
            r@ == self@.args,
    {
        self.args.as_str()
    }
}

/// A reference to a node of a graph, by its place in the graph's registry.
#[derive(Clone, Copy, Debug, PartialEq, Eq, Structural)]
pub struct Context {
    index: usize,
}

impl View for Context {
    type V = nat;

    closed spec fn view(&self) -> nat {
        self.index as nat
    }
}

impl Context {
    /// The node's place in its graph's registry, in order of creation.
    pub fn index(&self) -> (r: usize)
        ensures
            r == self@,
    {
        self.index
    }
}

/// Whether a node named `name` is among `nodes`.
pub open spec fn has_name(nodes: Seq<NodeView>, name: Seq<char>) -> bool {
    exists|i: int| 0 <= i < nodes.len() && (#[trigger] nodes[i]).name == name
}

/// No two nodes share a name.
pub open spec fn names_unique(nodes: Seq<NodeView>) -> bool {
    forall|i: int, j: int|
        0 <= i < nodes.len() && 0 <= j < nodes.len() && i != j ==> (#[trigger] nodes[i]).name
            != (#[trigger] nodes[j]).name
}

/// The mathematical value of a graph: its nodes in order of creation, and
/// whether its last configuration pass succeeded with no node added since.
pub ghost struct GraphView {
    pub nodes: Seq<NodeView>,
    pub configured: bool,
}

/// No node name holds a NUL character.
pub open spec fn names_plain(nodes: Seq<NodeView>) -> bool {
    forall|i: int| 0 <= i < nodes.len() ==> !(#[trigger] nodes[i]).name.contains('\0')
}

/// Why the graph refuses a node before the engine is asked to create it, if it
/// does: a name already taken is an invalid argument, and a NUL character in
/// the name, filter name or arguments is invalid data.
pub open spec fn refusal(g: GraphView, filter: Seq<char>, name: Seq<char>, args: Seq<char>) -> Option<
    Error,
> {
    if name.contains('\0') {
        Some(Error::InvalidData)
    } else if has_name(g.nodes, name) {
        Some(error_of(INVALID_ARGUMENT_CODE))
    } else if filter.contains('\0') || args.contains('\0') {
        Some(Error::InvalidData)
    } else {
        None
    }
}

/// The outcome of adding a node when the engine reported `status` for creating
/// it: the refusal if there is one, else the engine's error for a negative
/// status, else the graph with the node appended.
pub open spec fn added(
    g: GraphView,
    filter: Seq<char>,
    name: Seq<char>,
    args: Seq<char>,
    status: i32,
) -> Result<GraphView, Error> {
    match refusal(g, filter, name, args) {
        Some(e) => Err(e),
        None => if status < 0 {
            Err(error_of(status))
        } else {
            Ok(
                GraphView {
                    nodes: g.nodes.push(NodeView { filter, name, args }),
                    configured: false,
                },
            )
        },
    }
}

/// One line of a graph's dump: `name: filter(args)`.
pub open spec fn dump_line(n: NodeView) -> Seq<char> {
    n.name + seq![':', ' '] + n.filter + seq!['('] + n.args + seq![')', '\n']
}

/// The dump of a sequence of nodes: one line for each, in order.
pub open spec fn dump_text(nodes: Seq<NodeView>) -> Seq<char>
    decreases nodes.len(),
{
    if nodes.len() == 0 {
        Seq::empty()
    } else {
        dump_text(nodes.drop_last()) + dump_line(nodes.last())
    }
}

/// Once a name is in a graph, whether it came in with the add just before or
/// long ago, any further add of that name fails with the name-collision error,
/// whatever filter, arguments and status come with it; a successful add keeps
/// the graph well formed and puts the name in it.
pub proof fn lemma_duplicate_name_refused(
    g: GraphView,
    f1: Seq<char>,
    a1: Seq<char>,
    s1: i32,
    f2: Seq<char>,
    a2: Seq<char>,
    s2: i32,
    name: Seq<char>,
)
    requires
        names_unique(g.nodes),
        names_plain(g.nodes),
    ensures
        has_name(g.nodes, name) ==> added(g, f2, name, a2, s2) == Err::<GraphView, Error>(
            error_of(INVALID_ARGUMENT_CODE),
        ),
        added(g, f1, name, a1, s1) matches Ok(g1) ==> {
            &&& names_unique(g1.nodes)
            &&& names_plain(g1.nodes)
            &&& has_name(g1.nodes, name)
            &&& added(g1, f2, name, a2, s2) == Err::<GraphView, Error>(
                error_of(INVALID_ARGUMENT_CODE),
            )
        },
{
    if has_name(g.nodes, name) {
        let i = choose|i: int| 0 <= i < g.nodes.len() && (#[trigger] g.nodes[i]).name == name;
        assert(!g.nodes[i].name.contains('\0'));
    }
    if added(g, f1, name, a1, s1) is Ok {
        let g1 = added(g, f1, name, a1, s1).unwrap();
        assert(g1.nodes[g.nodes.len() as int].name == name);
    }
}

/// A name that was never added is not found; right after a successful add of a
/// name, that name is found at the new node's place.
pub proof fn lemma_found_after_add(
    g: GraphView,
    filter: Seq<char>,
    name: Seq<char>,
    args: Seq<char>,
    status: i32,
)
    requires
        names_unique(g.nodes),
        added(g, filter, name, args, status) is Ok,
    ensures
        !has_name(g.nodes, name),
        added(g, filter, name, args, status) matches Ok(g1) && has_name(g1.nodes, name)
            && g1.nodes[g.nodes.len() as int].name == name,
{
    let g1 = added(g, filter, name, args, status).unwrap();
    assert(g1.nodes[g.nodes.len() as int].name == name);
}

/// Whether `s` holds a NUL character, which the engine's C strings cannot carry.
pub fn has_nul(s: &str) -> (r: bool)
    ensures
        r == s@.contains('\0'),
{
    broadcast use vstd::string::axiom_spec_iter, vstd::string::next_postcondition;

    let mut chars = s.chars();
    let ghost mut k: int = 0;
    loop
        invariant
            0 <= k <= s@.len(),
            chars.remaining() == s@.skip(k),
            forall|j: int| 0 <= j < k ==> s@[j] != '\0',
        decreases s@.len() - k,
    {
        match chars.next() {
            Some(c) => {
                assert(s@.skip(k)[0] == s@[k]);
                if c == '\0' {
                    return true;
                }
                proof {
                    assert(s@.skip(k).drop_first() =~= s@.skip(k + 1));
                    k = k + 1;
                }
            },
            None => {
                return false;
            },
        }
    }
}

/// A filter graph: a registry of uniquely named nodes.
pub struct Graph {
    nodes: Vec<Node>,
    configured: bool,
}

impl View for Graph {
    type V = GraphView;

    closed spec fn view(&self) -> GraphView {
        GraphView { nodes: self.nodes@.map_values(|n: Node| n@), configured: self.configured }
    }
}

impl Graph {
    /// A graph is well formed when its node names are unique and free of NUL.
    pub open spec fn wf(&self) -> bool {
        names_unique(self@.nodes) && names_plain(self@.nodes)
    }

    /// A graph with no nodes.
    pub fn new() -> (g: Graph)
        ensures
            g.wf(),
            g@.nodes.len() == 0,
            !g@.configured,
    {
        let g = Graph { nodes: Vec::new(), configured: false };
        assert(g@.nodes =~= Seq::empty());
        g
    }

    /// The place of the node named `name`, if there is one.
    fn find(&self, name: &String) -> (r: Option<usize>)
        ensures
            r is Some <==> has_name(self@.nodes, name@),
            r matches Some(i) ==> i < self@.nodes.len() && self@.nodes[i as int].name == name@,
    {
        let mut i: usize = 0;
        while i < self.nodes.len()
            invariant
                i <= self.nodes.len(),
                forall|k: int| 0 <= k < i ==> (#[trigger] self@.nodes[k]).name != name@,
            decreases self.nodes.len() - i,
        {
            if self.nodes[i].name == *name {
                assert(self@.nodes[i as int] == self.nodes[i as int]@);
                return Some(i);
            }
            i = i + 1;
        }
        None
    }

    /// Whether the graph lets a node be created under `name`, before the engine
    /// is asked to create it.
    pub fn admits(&self, filter: &Filter, name: &str, args: &str) -> (r: Result<(), Error>)
        ensures
            r == (match refusal(self@, filter@, name@, args@) {
                Some(e) => Err(e),
                None => Ok::<(), Error>(()),
            }),
    {
        if has_nul(name) {
            return Err(Error::InvalidData);
        }
        if self.find(&name.to_owned()).is_some() {
            return Err(Error::from_code(INVALID_ARGUMENT_CODE));
        }
        if has_nul(filter.name.as_str()) || has_nul(args) {
            return Err(Error::InvalidData);
        }
        Ok(())
    }

    /// Adds a node running `filter` under `name` with arguments `args`, given the
    /// engine's `status` for creating it: a refused node or a negative status
    /// leaves the graph unchanged.
    pub fn add(&mut self, filter: &Filter, name: &str, args: &str, status: i32) -> (r: Result<
        Context,
        Error,
    >)
        requires
            old(self).wf(),
        ensures
            final(self).wf(),
            r is Ok ==> has_name(final(self)@.nodes, name@),
            match added(old(self)@, filter@, name@, args@, status) {
                Ok(g) => final(self)@ == g && (r matches Ok(c) && c@ == old(self)@.nodes.len()),
                Err(e) => final(self)@ == old(self)@ && r == Err::<Context, Error>(e),
            },
    {
        match self.admits(filter, name, args) {
            Err(e) => {
                return Err(e);
            },
            Ok(()) => {},
        }
        if status < 0 {
            return Err(Error::from_code(status));
        }
        let name = name.to_owned();
        let index = self.nodes.len();
        let node = Node { filter: filter.name.clone(), name, args: args.to_owned() };
        self.nodes.push(node);
        self.configured = false;
        assert(self@.nodes[index as int].name == name@);
        assert(self@.nodes =~= old(self)@.nodes.push(
            NodeView { filter: filter@, name: name@, args: args@ },
        ));
        Ok(Context { index })
    }

    /// The node named `name`, or nothing when no node has that name.
    pub fn get(&self, name: &str) -> (r: Option<Context>)
        ensures
            name@.contains('\0') ==> r is None,
            r is Some <==> has_name(self@.nodes, name@) && !name@.contains('\0'),
            r matches Some(c) ==> c@ < self@.nodes.len() && self@.nodes[c@ as int].name == name@,
    {
        if has_nul(name) {
            return None;
        }
        match self.find(&name.to_owned()) {
            Some(index) => Some(Context { index }),
            None => None,
        }
    }

    /// The nodes, in order of creation.
    pub fn nodes(&self) -> (r: &[Node])
        ensures
            r@.map_values(|n: Node| n@) == self@.nodes,
    {
        self.nodes.as_slice()
    }

    /// The node a context refers to, when it is a place in this graph.
    pub fn node(&self, c: Context) -> (r: Option<&Node>)
        ensures
            r is Some <==> c@ < self@.nodes.len(),
            r matches Some(n) ==> n@ == self@.nodes[c@ as int],
    {
        if c.index < self.nodes.len() {
            Some(&self.nodes[c.index])
        } else {
            None
        }
    }

    /// Records the outcome of the engine's configuration pass over this graph,
    /// which resolves pad connections and negotiates formats and reports `status`.
    pub fn validate(&mut self, status: i32) -> (r: Result<(), Error>)
        ensures
            r == outcome_of(status),
            final(self)@.nodes == old(self)@.nodes,
            final(self)@.configured == (status >= 0),
    {
        if status >= 0 {
            self.configured = true;
            Ok(())
        } else {
            self.configured = false;
            Err(Error::from_code(status))
        }
    }

    /// Whether the last configuration pass succeeded with no node added since.
    pub fn is_configured(&self) -> (r: bool)
        ensures
            r == self@.configured,
    {
        self.configured
    }

    /// The library's own listing of the graph's nodes, one line for each in order
    /// of creation; the links the engine makes are not shown.
    pub fn dump(&self) -> (s: String)
        ensures
            s@ == dump_text(self@.nodes),
    {
        let mut s = String::new();
        let mut i: usize = 0;
        while i < self.nodes.len()
            invariant
                i <= self.nodes.len(),
                s@ == dump_text(self@.nodes.subrange(0, i as int)),
            decreases self.nodes.len() - i,
        {
            let n = &self.nodes[i];
            let ghost before = s@;
            s.append(n.name.as_str());
            s.append(": ");
            s.append(n.filter.as_str());
            s.append("(");
            s.append(n.args.as_str());
            s.append(")\n");
            proof {
                reveal_strlit(": ");
                reveal_strlit("(");
                reveal_strlit(")\n");
                assert(self@.nodes[i as int] == n@);
                assert(s@ =~= before + dump_line(n@));
                let next = self@.nodes.subrange(0, i + 1);
                assert(next.drop_last() =~= self@.nodes.subrange(0, i as int));
                assert(s@ =~= dump_text(self@.nodes.subrange(0, i as int)) + dump_line(
                    self@.nodes[i as int],
                ));
            }
            i = i + 1;
        }
        assert(self@.nodes.subrange(0, i as int) =~= self@.nodes);
        s
    }

    /// Starts a parser with one input binding.
    pub fn input(&self, name: &str, pad: usize) -> (r: Result<Parser<'_>, Error>)
        ensures
            match r {
                Ok(p) => p@.graph == self@ && p@.outputs.len() == 0 && p@.inputs.len() == 1
                    && binds(self@, p@.inputs[0], name@, pad as nat),
                Err(e) => (!has_name(self@.nodes, name@) || pad > MAX_PAD) && e
                    == Error::InvalidData,
            },
    {
        Parser::new(self).input(name, pad)
    }

    /// Starts a parser with one output binding.
    pub fn output(&self, name: &str, pad: usize) -> (r: Result<Parser<'_>, Error>)
        ensures
            match r {
                Ok(p) => p@.graph == self@ && p@.inputs.len() == 0 && p@.outputs.len() == 1
                    && binds(self@, p@.outputs[0], name@, pad as nat),
                Err(e) => (!has_name(self@.nodes, name@) || pad > MAX_PAD) && e
                    == Error::InvalidData,
            },
    {
        Parser::new(self).output(name, pad)
    }

    /// The link request of a textual spec with no pad bindings; a spec holding a
    /// NUL character is invalid data.
    pub fn parse(&self, spec: &str) -> (r: Result<Link, Error>)
        ensures
            r is Err <==> spec@.contains('\0'),
            r matches Err(e) ==> e == Error::InvalidData,
            r matches Ok(l) ==> l@ == (LinkView {
                spec: spec@,
                inputs: Seq::empty(),
                outputs: Seq::empty(),
            }),
    {
        Parser::new(self).parse(spec)
    }
}

/// A pad binding: a pad of a named node, as an endpoint for linking a spec.
pub struct Binding {
    name: String,
    node: usize,
    pad: usize,
}

pub ghost struct BindingView {
    pub name: Seq<char>,
    pub node: nat,
    pub pad: nat,
}

impl View for Binding {
    type V = BindingView;

    closed spec fn view(&self) -> BindingView {
        BindingView { name: self.name@, node: self.node as nat, pad: self.pad as nat }
    }
}

impl Binding {
    pub fn name(&self) -> (r: &str)
        ensures
            r@ == self@.name,
    {
        self.name.as_str()
    }

    /// The bound node's place in its graph.
    pub fn node(&self) -> (r: usize)
        ensures
            r == self@.node,
    {
        self.node
    }

    pub fn pad(&self) -> (r: usize)
        ensures
            r == self@.pad,
    {
        self.pad
    }
}

/// The largest pad index the engine can address (its C `int` range).
pub const MAX_PAD: usize = 2147483647;

/// `b` binds pad `pad` of the node of `g` named `name`.
pub open spec fn binds(g: GraphView, b: BindingView, name: Seq<char>, pad: nat) -> bool {
    &&& b.name == name
    &&& b.pad == pad
    &&& pad <= MAX_PAD
    &&& b.node < g.nodes.len()
    &&& g.nodes[b.node as int].name == name
}

/// What a parser hands to the engine's link resolution: a textual spec and the
/// pad bindings to connect to its dangling inputs and outputs.
pub struct Link {
    spec: String,
    inputs: Vec<Binding>,
    outputs: Vec<Binding>,
}

pub ghost struct LinkView {
    pub spec: Seq<char>,
    pub inputs: Seq<BindingView>,
    pub outputs: Seq<BindingView>,
}

impl View for Link {
    type V = LinkView;

    closed spec fn view(&self) -> LinkView {
        LinkView {
            spec: self.spec@,
            inputs: self.inputs@.map_values(|b: Binding| b@),
            outputs: self.outputs@.map_values(|b: Binding| b@),
        }
    }
}

impl Link {
    pub fn spec(&self) -> (r: &str)
        ensures
            r@ == self@.spec,
    {
        self.spec.as_str()
    }

    pub fn inputs(&self) -> (r: &[Binding])
        ensures
            r@.map_values(|b: Binding| b@) == self@.inputs,
    {
        self.inputs.as_slice()
    }

    pub fn outputs(&self) -> (r: &[Binding])
        ensures
            r@.map_values(|b: Binding| b@) == self@.outputs,
    {
        self.outputs.as_slice()
    }
}

/// A builder of one link request against a graph: it collects input and output
/// pad bindings, each of an existing node, and is consumed by `parse`.
pub struct Parser<'a> {
    graph: &'a Graph,
    inputs: Vec<Binding>,
    outputs: Vec<Binding>,
}

pub ghost struct ParserView {
    pub graph: GraphView,
    pub inputs: Seq<BindingView>,
    pub outputs: Seq<BindingView>,
}

impl<'a> View for Parser<'a> {
    type V = ParserView;

    closed spec fn view(&self) -> ParserView {
        ParserView {
            graph: self.graph@,
            inputs: self.inputs@.map_values(|b: Binding| b@),
            outputs: self.outputs@.map_values(|b: Binding| b@),
        }
    }
}

impl<'a> Parser<'a> {
    /// A parser with no bindings yet.
    pub fn new(graph: &'a Graph) -> (p: Parser<'a>)
        ensures
            p@.graph == graph@,
            p@.inputs == Seq::<BindingView>::empty(),
            p@.outputs == Seq::<BindingView>::empty(),
    {
        let p = Parser { graph, inputs: Vec::new(), outputs: Vec::new() };
        assert(p@.inputs =~= Seq::<BindingView>::empty());
        assert(p@.outputs =~= Seq::<BindingView>::empty());
        p
    }

    /// The binding of pad `pad` of the node named `name`; invalid data when the
    /// graph has no such node or the pad is beyond what the engine can address.
    fn bind(&self, name: &str, pad: usize) -> (r: Result<Binding, Error>)
        ensures
            match r {
                Ok(b) => binds(self@.graph, b@, name@, pad as nat),
                Err(e) => (!has_name(self@.graph.nodes, name@) || pad > MAX_PAD) && e
                    == Error::InvalidData,
            },
    {
        if pad > MAX_PAD {
            return Err(Error::InvalidData);
        }
        let name = name.to_owned();
        match self.graph.find(&name) {
            Some(node) => Ok(Binding { name, node, pad }),
            None => Err(Error::InvalidData),
        }
    }

    /// Appends an input binding for pad `pad` of the node named `name`.
    pub fn input(self, name: &str, pad: usize) -> (r: Result<Parser<'a>, Error>)
        ensures
            match r {
                Ok(p) => p@.graph == self@.graph && p@.outputs == self@.outputs
                    && p@.inputs.len() == self@.inputs.len() + 1
                    && p@.inputs.drop_last() == self@.inputs
                    && binds(self@.graph, p@.inputs.last(), name@, pad as nat),
                Err(e) => (!has_name(self@.graph.nodes, name@) || pad > MAX_PAD) && e
                    == Error::InvalidData,
            },
    {
        let mut p = self;
        match p.bind(name, pad) {
            Ok(b) => {
                p.inputs.push(b);
                assert(p@.inputs.drop_last() =~= self@.inputs);
                Ok(p)
            },
            Err(e) => Err(e),
        }
    }

    /// Appends an output binding for pad `pad` of the node named `name`.
    pub fn output(self, name: &str, pad: usize) -> (r: Result<Parser<'a>, Error>)
        ensures
            match r {
                Ok(p) => p@.graph == self@.graph && p@.inputs == self@.inputs
                    && p@.outputs.len() == self@.outputs.len() + 1
                    && p@.outputs.drop_last() == self@.outputs
                    && binds(self@.graph, p@.outputs.last(), name@, pad as nat),
                Err(e) => (!has_name(self@.graph.nodes, name@) || pad > MAX_PAD) && e
                    == Error::InvalidData,
            },
    {
        let mut p = self;
        match p.bind(name, pad) {
            Ok(b) => {
                p.outputs.push(b);
                assert(p@.outputs.drop_last() =~= self@.outputs);
                Ok(p)
            },
            Err(e) => Err(e),
        }
    }

    /// Ends the parser: its bindings, in order, go with `spec` into one link
    /// request; a spec holding a NUL character is invalid data. The bindings are
    /// released with the parser either way.
    pub fn parse(self, spec: &str) -> (r: Result<Link, Error>)
        ensures
            r is Err <==> spec@.contains('\0'),
            r matches Err(e) ==> e == Error::InvalidData,
            r matches Ok(l) ==> l@ == (LinkView {
                spec: spec@,
                inputs: self@.inputs,
                outputs: self@.outputs,
            }),
    {
        if has_nul(spec) {
            return Err(Error::InvalidData);
        }
        Ok(Link { spec: spec.to_owned(), inputs: self.inputs, outputs: self.outputs })
    }
}

} // verus!
