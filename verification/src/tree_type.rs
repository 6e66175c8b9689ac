//! The types of the language, and the rule of numeric promotion.

use vstd::prelude::*;
use vstd::string::*;
use crate::error::TypeError;
use crate::expression::Identifier;

verus! {

/// The built-in types, and the types that a program names itself.
#[derive(Debug, Eq)]
pub enum FundamentalType {
    Boolean,
    Character,
    Integer,
    Float,
    String,
    DefinedType(String),
}

/// The type of an expression or of a variable.
#[derive(Debug, Eq)]
pub struct Type {
    pub ty: FundamentalType,
}

/// What a type is: its tag, and for a defined type its name.
pub ghost enum FundamentalTypeView {
    Boolean,
    Character,
    Integer,
    Float,
    String,
    DefinedType(Seq<char>),
}

impl View for FundamentalType {
    type V = FundamentalTypeView;

    open spec fn view(&self) -> FundamentalTypeView {
        match self {
            FundamentalType::Boolean => FundamentalTypeView::Boolean,
            FundamentalType::Character => FundamentalTypeView::Character,
            FundamentalType::Integer => FundamentalTypeView::Integer,
            FundamentalType::Float => FundamentalTypeView::Float,
            FundamentalType::String => FundamentalTypeView::String,
            FundamentalType::DefinedType(name) => FundamentalTypeView::DefinedType(name@),
        }
    }
}

impl View for Type {
    type V = FundamentalTypeView;

    open spec fn view(&self) -> FundamentalTypeView {
        self.ty@
    }
}

/// The view of an optional type.
pub open spec fn type_option_view(t: Option<Type>) -> Option<FundamentalTypeView> {
    match t {
        Some(t) => Some(t@),
        None => None,
    }
}

/// The type that a name stands for. The five built-in names stand for the
/// built-in types; any other name stands for the defined type of that name.
pub open spec fn named_type(name: Seq<char>) -> FundamentalTypeView {
    if name == "bool"@ {
        FundamentalTypeView::Boolean
    } else if name == "char"@ {
        FundamentalTypeView::Character
    } else if name == "int"@ {
        FundamentalTypeView::Integer
    } else if name == "float"@ {
        FundamentalTypeView::Float
    } else if name == "str"@ {
        FundamentalTypeView::String
    } else {
        FundamentalTypeView::DefinedType(name)
    }
}

/// The name under which a type is written in messages.
pub open spec fn written_name(t: FundamentalTypeView) -> Seq<char> {
    match t {
        FundamentalTypeView::Boolean => "bool"@,
        FundamentalTypeView::Character => "char"@,
        FundamentalTypeView::Integer => "int"@,
        FundamentalTypeView::Float => "float"@,
        FundamentalTypeView::String => "str"@,
        FundamentalTypeView::DefinedType(name) => name,
    }
}

/// The first place at which `t` stands in `order`, counted from `from`.
pub open spec fn position_from(order: Seq<FundamentalTypeView>, t: FundamentalTypeView, from: int) -> Option<int>
    decreases order.len() - from,
{
    if from < 0 || from >= order.len() {
        None
    } else if order[from] == t {
        Some(from)
    } else {
        position_from(order, t, from + 1)
    }
}

/// The first place at which `t` stands in `order`, if it stands there at all.
pub open spec fn position(order: Seq<FundamentalTypeView>, t: FundamentalTypeView) -> Option<int> {
    position_from(order, t, 0)
}

/// Promotion along `order`, which lists types from the highest to the
/// lowest. Two types that both stand in the list give the one that stands
/// first, the left one where both stand at the same place. Otherwise there
/// is no promoted type.
pub open spec fn promoted(
    order: Seq<FundamentalTypeView>,
    left: FundamentalTypeView,
    right: FundamentalTypeView,
) -> Option<FundamentalTypeView> {
    match (position(order, left), position(order, right)) {
        (Some(l), Some(r)) => if r < l {
            Some(right)
        } else {
            Some(left)
        },
        _ => None,
    }
}

/// The numeric types, from the highest to the lowest.
pub open spec fn numeric_order() -> Seq<FundamentalTypeView> {
    seq![FundamentalTypeView::Float, FundamentalTypeView::Integer, FundamentalTypeView::Character]
}

/// `position_from` finds the first occurrence at or behind `from`, and finds
/// one exactly when there is one.
pub proof fn lemma_position_from(order: Seq<FundamentalTypeView>, t: FundamentalTypeView, from: int)
    requires
        0 <= from <= order.len(),
    ensures
        match position_from(order, t, from) {
            Some(i) => from <= i < order.len() && order[i] == t && forall|j: int|
                from <= j < i ==> order[j] != t,
            None => forall|j: int| from <= j < order.len() ==> order[j] != t,
        },
    decreases order.len() - from,
{
    if from < order.len() && order[from] != t {
        lemma_position_from(order, t, from + 1);
    }
}

impl PartialEq for FundamentalType {
    fn eq(&self, other: &FundamentalType) -> (r: bool) {
        match (self, other) {
            (FundamentalType::Boolean, FundamentalType::Boolean) => true,
            (FundamentalType::Character, FundamentalType::Character) => true,
            (FundamentalType::Integer, FundamentalType::Integer) => true,
            (FundamentalType::Float, FundamentalType::Float) => true,
            (FundamentalType::String, FundamentalType::String) => true,
            (FundamentalType::DefinedType(a), FundamentalType::DefinedType(b)) => *a == *b,
            _ => false,
        }
    }
}

impl vstd::std_specs::cmp::PartialEqSpecImpl for FundamentalType {
    open spec fn obeys_eq_spec() -> bool {
        true
    }

    open spec fn eq_spec(&self, other: &FundamentalType) -> bool {
        self@ == other@
    }
}

impl PartialEq for Type {
    fn eq(&self, other: &Type) -> (r: bool) {
        self.ty == other.ty
    }
}

impl vstd::std_specs::cmp::PartialEqSpecImpl for Type {
    open spec fn obeys_eq_spec() -> bool {
        true
    }

    open spec fn eq_spec(&self, other: &Type) -> bool {
        self@ == other@
    }
}

impl Clone for FundamentalType {
    fn clone(&self) -> (r: FundamentalType)
        ensures
            r@ == self@,
    {
        match self {
            FundamentalType::Boolean => FundamentalType::Boolean,
            FundamentalType::Character => FundamentalType::Character,
            FundamentalType::Integer => FundamentalType::Integer,
            FundamentalType::Float => FundamentalType::Float,
            FundamentalType::String => FundamentalType::String,
            FundamentalType::DefinedType(name) => FundamentalType::DefinedType(name.clone()),
        }
    }
}

impl Clone for Type {
    fn clone(&self) -> (r: Type)
        ensures
            r@ == self@,
    {
        Type { ty: self.ty.clone() }
    }
}

/// Whether a text is, character for character, the given word.
pub fn text_is(text: &String, word: &str) -> (r: bool)
    ensures
        r == (text@ == word@),
{
    let word = String::from_str(word);
    *text == word
}

impl FundamentalType {
    /// The name under which the type is written in messages.
    pub fn name(&self) -> (r: String)
        ensures
            r@ == written_name(self@),
    {
        match self {
            FundamentalType::Boolean => String::from_str("bool"),
            FundamentalType::Character => String::from_str("char"),
            FundamentalType::Integer => String::from_str("int"),
            FundamentalType::Float => String::from_str("float"),
            FundamentalType::String => String::from_str("str"),
            FundamentalType::DefinedType(name) => name.clone(),
        }
    }
}

impl Type {
    pub fn new(ty: FundamentalType) -> (r: Type)
        ensures
            r@ == ty@,
    {
        Type { ty }
    }

    /// The type that an identifier names.
    pub fn from_id(id: &Identifier) -> (r: Type)
        ensures
            r@ == named_type(id@.name),
    {
        Type::from_string(&id.name)
    }

    /// The type that a name stands for.
    pub fn from_string(string: &String) -> (r: Type)
        ensures
            r@ == named_type(string@),
    {
        if text_is(string, "bool") {
            Type { ty: FundamentalType::Boolean }
        } else if text_is(string, "char") {
            Type { ty: FundamentalType::Character }
        } else if text_is(string, "int") {
            Type { ty: FundamentalType::Integer }
        } else if text_is(string, "float") {
            Type { ty: FundamentalType::Float }
        } else if text_is(string, "str") {
            Type { ty: FundamentalType::String }
        } else {
            Type { ty: FundamentalType::DefinedType(string.clone()) }
        }
    }

    /// The name under which the type is written in messages.
    pub fn name(&self) -> (r: String)
        ensures
            r@ == written_name(self@),
    {
        self.ty.name()
    }
}

/// The views of a list of types, in order.
pub open spec fn order_view(order: Seq<FundamentalType>) -> Seq<FundamentalTypeView> {
    order.map_values(|t: FundamentalType| t@)
}

/// The first place at which the type of `t` stands in `prec`.
fn position_in(prec: &Vec<FundamentalType>, t: &FundamentalType) -> (r: Option<usize>)
    ensures
        match r {
            Some(i) => position(order_view(prec@), t@) == Some(i as int),
            None => position(order_view(prec@), t@) is None,
        },
{
    let ghost order = order_view(prec@);
    let mut i: usize = 0;
    while i < prec.len()
        invariant
            i <= prec.len(),
            order == order_view(prec@),
            position(order, t@) == position_from(order, t@, i as int),
        decreases prec.len() - i,
    {
        if prec[i] == *t {
            return Some(i);
        }
        i = i + 1;
    }
    None
}

/// Promotes two operand types along `prec`, which lists types from the
/// highest to the lowest. Never fails: where one of the two types does not
/// stand in the list, there is no promoted type.
pub fn binary_operator_prec(prec: Vec<FundamentalType>, left: &Type, right: &Type) -> (r: Result<
    Option<Type>,
    TypeError,
>)
    ensures
        r is Ok,
        type_option_view(r->Ok_0) == promoted(order_view(prec@), left@, right@),
{
    let left_prec = position_in(&prec, &left.ty);
    let right_prec = position_in(&prec, &right.ty);
    match (left_prec, right_prec) {
        (Some(l), Some(r)) => {
            if r < l {
                Ok(Some(right.clone()))
            } else {
                Ok(Some(left.clone()))
            }
        },
        _ => Ok(None),
    }
}

} // verus!
