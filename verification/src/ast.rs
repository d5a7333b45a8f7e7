//! The abstract syntax tree produced by the grammar layer.
//!
//! `Node` is the executable tree; `NodeV` is its mathematical model, with
//! `Seq<char>` for names and `Seq<NodeV>` for child lists, so that contracts
//! can speak of trees without mentioning heap types.

use vstd::prelude::*;

verus! {

broadcast use vstd::seq::axiom_seq_index_decreases, vstd::seq::axiom_seq_subrange_decreases, vstd::std_specs::vec::axiom_vec_decreases_to_view;

/// A node of the abstract syntax tree. Composite nodes own their children;
/// the tree is immutable once built.
#[derive(Debug, PartialEq, Eq)]
pub enum Node {
    Number(i64),
    Id(String),
    Not(Box<Node>),
    Equal(Box<Node>, Box<Node>),
    NotEqual(Box<Node>, Box<Node>),
    Add(Box<Node>, Box<Node>),
    Subtract(Box<Node>, Box<Node>),
    Multiply(Box<Node>, Box<Node>),
    Divide(Box<Node>, Box<Node>),
    Call { callee: String, args: Vec<Node> },
    Return(Box<Node>),
    Block(Vec<Node>),
    If(If),
    Function(Function),
    Var(String, Box<Node>),
    Assignment(String, Box<Node>),
    While(While),
}

/// An `if` statement. Both branches are always present: a missing source-level
/// `else` is normalized to an empty block, never to an absent branch.
#[derive(Debug, PartialEq, Eq)]
pub struct If {
    pub condition: Box<Node>,
    pub consequence: Box<Node>,
    pub alternative: Box<Node>,
}

/// A function declaration with an ordered parameter-name list and a block body.
#[derive(Debug, PartialEq, Eq)]
pub struct Function {
    pub name: String,
    pub parameters: Vec<String>,
    pub body: Box<Node>,
}

/// A `while` loop with a block body.
#[derive(Debug, PartialEq, Eq)]
pub struct While {
    pub condition: Box<Node>,
    pub body: Box<Node>,
}

/// The mathematical model of a `Node`.
pub enum NodeV {
    Number(int),
    Id(Seq<char>),
    Not(Box<NodeV>),
    Equal(Box<NodeV>, Box<NodeV>),
    NotEqual(Box<NodeV>, Box<NodeV>),
    Add(Box<NodeV>, Box<NodeV>),
    Subtract(Box<NodeV>, Box<NodeV>),
    Multiply(Box<NodeV>, Box<NodeV>),
    Divide(Box<NodeV>, Box<NodeV>),
    Call { callee: Seq<char>, args: Seq<NodeV> },
    Return(Box<NodeV>),
    Block(Seq<NodeV>),
    If(IfV),
    Function(FunctionV),
    Var(Seq<char>, Box<NodeV>),
    Assignment(Seq<char>, Box<NodeV>),
    While(WhileV),
}

/// The mathematical model of an `If` node.
pub struct IfV {
    pub condition: Box<NodeV>,
    pub consequence: Box<NodeV>,
    pub alternative: Box<NodeV>,
}

/// The mathematical model of a `Function` node.
pub struct FunctionV {
    pub name: Seq<char>,
    pub parameters: Seq<Seq<char>>,
    pub body: Box<NodeV>,
}

/// The mathematical model of a `While` node.
pub struct WhileV {
    pub condition: Box<NodeV>,
    pub body: Box<NodeV>,
}

/// The models of the elements of a statement or argument list, in order.
pub open spec fn nodes_view(v: Seq<Node>) -> Seq<NodeV>
    decreases v,
{
    if v.len() == 0 {
        Seq::empty()
    } else {
        nodes_view(v.drop_last()).push(v.last()@)
    }
}

/// The models of the elements of a parameter-name list, in order.
pub open spec fn names_view(v: Seq<String>) -> Seq<Seq<char>> {
    Seq::new(v.len(), |i: int| v[i]@)
}

/// `nodes_view` maps the list element by element.
pub broadcast proof fn lemma_nodes_view(v: Seq<Node>)
    ensures
        (#[trigger] nodes_view(v)).len() == v.len(),
        forall|i: int| 0 <= i < v.len() ==> nodes_view(v)[i] == v[i]@,
    decreases v,
{
    if v.len() == 0 {
        assert(nodes_view(v) =~= Seq::<NodeV>::empty());
    } else {
        lemma_nodes_view(v.drop_last());
        assert(nodes_view(v) == nodes_view(v.drop_last()).push(v.last()@));
        assert forall|i: int| 0 <= i < v.len() implies nodes_view(v)[i] == v[i]@ by {
            if i < v.len() - 1 {
                assert(v.drop_last()[i] == v[i]);
            }
        }
    }
}

impl View for Node {
    type V = NodeV;

    open spec fn view(&self) -> NodeV
        decreases self,
    {
        match self {
            Node::Number(n) => NodeV::Number(*n as int),
            Node::Id(name) => NodeV::Id(name@),
            Node::Not(e) => NodeV::Not(Box::new((**e)@)),
            Node::Equal(l, r) => NodeV::Equal(Box::new((**l)@), Box::new((**r)@)),
            Node::NotEqual(l, r) => NodeV::NotEqual(Box::new((**l)@), Box::new((**r)@)),
            Node::Add(l, r) => NodeV::Add(Box::new((**l)@), Box::new((**r)@)),
            Node::Subtract(l, r) => NodeV::Subtract(Box::new((**l)@), Box::new((**r)@)),
            Node::Multiply(l, r) => NodeV::Multiply(Box::new((**l)@), Box::new((**r)@)),
            Node::Divide(l, r) => NodeV::Divide(Box::new((**l)@), Box::new((**r)@)),
            Node::Call { callee, args } => NodeV::Call {
                callee: callee@,
                args: nodes_view(args@),
            },
            Node::Return(e) => NodeV::Return(Box::new((**e)@)),
            Node::Block(stmts) => NodeV::Block(nodes_view(stmts@)),
            Node::If(i) => NodeV::If(i@),
            Node::Function(f) => NodeV::Function(f@),
            Node::Var(name, init) => NodeV::Var(name@, Box::new((**init)@)),
            Node::Assignment(name, value) => NodeV::Assignment(name@, Box::new((**value)@)),
            Node::While(w) => NodeV::While(w@),
        }
    }
}

impl View for If {
    type V = IfV;

    open spec fn view(&self) -> IfV
        decreases self,
    {
        IfV {
            condition: Box::new((*self.condition)@),
            consequence: Box::new((*self.consequence)@),
            alternative: Box::new((*self.alternative)@),
        }
    }
}

impl View for Function {
    type V = FunctionV;

    open spec fn view(&self) -> FunctionV
        decreases self,
    {
        FunctionV {
            name: self.name@,
            parameters: names_view(self.parameters@),
            body: Box::new((*self.body)@),
        }
    }
}

impl View for While {
    type V = WhileV;

    open spec fn view(&self) -> WhileV
        decreases self,
    {
        WhileV {
            condition: Box::new((*self.condition)@),
            body: Box::new((*self.body)@),
        }
    }
}

} // verus!
