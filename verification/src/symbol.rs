//! Symbols and the table that maps each name to its symbol.

use vstd::prelude::*;
use vstd::string::*;
use crate::error::{ErrorKind, TypeError, TypeErrorView};
use crate::expression::{Identifier, IdentifierView};
use crate::tree_type::{FundamentalTypeView, Type};

verus! {

/// A variable: the identifier that declared it, its type, and whether it
/// has been given a value.
#[derive(Debug)]
pub struct Variable {
    pub init: bool,
    pub id: Identifier,
    pub ty: Type,
}

/// A function: the identifier that declared it, its parameters in order,
/// its return type, and whether it has a body.
#[derive(Debug)]
pub struct Function {
    pub id: Identifier,
    pub params: Vec<(String, Type)>,
    pub output: Type,
    pub body: bool,
}

/// What a name can stand for.
#[derive(Debug)]
pub enum Symbol {
    Variable(Variable),
    Function(Function),
}

/// What a [`Variable`] is.
pub ghost struct VariableView {
    pub init: bool,
    pub id: IdentifierView,
    pub ty: FundamentalTypeView,
}

/// What a [`Function`] is, with its parameters as a sequence.
pub ghost struct FunctionView {
    pub id: IdentifierView,
    pub params: Seq<(Seq<char>, FundamentalTypeView)>,
    pub output: FundamentalTypeView,
    pub body: bool,
}

/// What a [`Symbol`] is.
pub ghost enum SymbolView {
    Variable(VariableView),
    Function(FunctionView),
}

/// The view of one parameter of a function symbol.
pub open spec fn param_view(p: (String, Type)) -> (Seq<char>, FundamentalTypeView) {
    (p.0@, p.1@)
}

/// The views of the parameters of a function symbol, in order.
pub open spec fn params_view(params: Seq<(String, Type)>) -> Seq<(Seq<char>, FundamentalTypeView)> {
    params.map_values(|p: (String, Type)| param_view(p))
}

impl View for Variable {
    type V = VariableView;

    open spec fn view(&self) -> VariableView {
        VariableView { init: self.init, id: self.id@, ty: self.ty@ }
    }
}

impl View for Function {
    type V = FunctionView;

    open spec fn view(&self) -> FunctionView {
        FunctionView {
            id: self.id@,
            params: params_view(self.params@),
            output: self.output@,
            body: self.body,
        }
    }
}

impl View for Symbol {
    type V = SymbolView;

    open spec fn view(&self) -> SymbolView {
        match self {
            Symbol::Variable(v) => SymbolView::Variable(v@),
            Symbol::Function(f) => SymbolView::Function(f@),
        }
    }
}

impl Variable {
    pub fn new(init: bool, id: Identifier, ty: Type) -> (r: Variable)
        ensures
            r@ == (VariableView { init, id: id@, ty: ty@ }),
    {
        Variable { init, id, ty }
    }

    /// Records that the variable has been given a value.
    pub fn initialise(&mut self)
        ensures
            final(self)@ == (VariableView { init: true, ..old(self)@ }),
    {
        self.init = true;
    }

    /// Whether the variable has been given a value.
    pub fn is_initialised(&self) -> (r: bool)
        ensures
            r == self@.init,
    {
        self.init
    }
}

impl Clone for Variable {
    fn clone(&self) -> (r: Variable)
        ensures
            r@ == self@,
    {
        Variable { init: self.init, id: self.id.clone(), ty: self.ty.clone() }
    }
}

impl Function {
    pub fn new(body: bool, id: Identifier, params: Vec<(String, Type)>, output: Type) -> (r: Function)
        ensures
            r@ == (FunctionView { id: id@, params: params_view(params@), output: output@, body }),
    {
        Function { id, params, output, body }
    }

    /// Records that the function has a body.
    pub fn define(&mut self)
        ensures
            final(self)@ == (FunctionView { body: true, ..old(self)@ }),
    {
        self.body = true;
    }

    /// Whether the function has a body.
    pub fn has_body(&self) -> (r: bool)
        ensures
            r == self@.body,
    {
        self.body
    }
}

impl Clone for Function {
    fn clone(&self) -> (r: Function)
        ensures
            r@ == self@,
    {
        let mut params: Vec<(String, Type)> = Vec::new();
        let mut i: usize = 0;
        while i < self.params.len()
            invariant
                i <= self.params.len(),
                params@.len() == i,
                forall|j: int| 0 <= j < i ==> param_view(params@[j]) == param_view(self.params@[j]),
            decreases self.params.len() - i,
        {
            let entry = (self.params[i].0.clone(), self.params[i].1.clone());
            params.push(entry);
            i = i + 1;
        }
        assert(params_view(params@) =~= params_view(self.params@));
        Function { id: self.id.clone(), params, output: self.output.clone(), body: self.body }
    }
}

impl Clone for Symbol {
    fn clone(&self) -> (r: Symbol)
        ensures
            r@ == self@,
    {
        match self {
            Symbol::Variable(v) => Symbol::Variable(v.clone()),
            Symbol::Function(f) => Symbol::Function(f.clone()),
        }
    }
}

/// The view of one entry of a table.
pub open spec fn entry_view(e: (String, Symbol)) -> (Seq<char>, SymbolView) {
    (e.0@, e.1@)
}

/// The views of the entries of a table, in order.
pub open spec fn entries_view(entries: Seq<(String, Symbol)>) -> Seq<(Seq<char>, SymbolView)> {
    entries.map_values(|e: (String, Symbol)| entry_view(e))
}

/// The mapping that a list of entries stands for: where a name occurs more
/// than once, the last entry counts.
pub open spec fn table_map(entries: Seq<(Seq<char>, SymbolView)>) -> Map<Seq<char>, SymbolView>
    decreases entries.len(),
{
    if entries.len() == 0 {
        Map::empty()
    } else {
        table_map(entries.drop_last()).insert(entries.last().0, entries.last().1)
    }
}

proof fn lemma_table_map_absent(entries: Seq<(Seq<char>, SymbolView)>, name: Seq<char>)
    requires
        forall|j: int| 0 <= j < entries.len() ==> entries[j].0 != name,
    ensures
        !table_map(entries).contains_key(name),
    decreases entries.len(),
{
    if entries.len() > 0 {
        lemma_table_map_absent(entries.drop_last(), name);
    }
}

proof fn lemma_table_map_found(entries: Seq<(Seq<char>, SymbolView)>, name: Seq<char>, i: int)
    requires
        0 <= i < entries.len(),
        entries[i].0 == name,
        forall|j: int| i < j < entries.len() ==> entries[j].0 != name,
    ensures
        table_map(entries).contains_key(name),
        table_map(entries)[name] == entries[i].1,
    decreases entries.len(),
{
    if i < entries.len() - 1 {
        lemma_table_map_found(entries.drop_last(), name, i);
    }
}

proof fn lemma_table_map_push(entries: Seq<(Seq<char>, SymbolView)>, name: Seq<char>, symbol: SymbolView)
    ensures
        table_map(entries.push((name, symbol))) == table_map(entries).insert(name, symbol),
{
    assert(entries.push((name, symbol)).drop_last() =~= entries);
}

proof fn lemma_table_map_update(
    entries: Seq<(Seq<char>, SymbolView)>,
    name: Seq<char>,
    symbol: SymbolView,
    i: int,
)
    requires
        0 <= i < entries.len(),
        entries[i].0 == name,
        forall|j: int| i < j < entries.len() ==> entries[j].0 != name,
    ensures
        table_map(entries.update(i, (name, symbol))) == table_map(entries).insert(name, symbol),
    decreases entries.len(),
{
    let updated = entries.update(i, (name, symbol));
    if i == entries.len() - 1 {
        assert(updated.drop_last() =~= entries.drop_last());
        assert(table_map(updated) =~= table_map(entries).insert(name, symbol));
    } else {
        lemma_table_map_update(entries.drop_last(), name, symbol, i);
        assert(updated.drop_last() =~= entries.drop_last().update(i, (name, symbol)));
        assert(table_map(updated) =~= table_map(entries).insert(name, symbol));
    }
}

/// The symbol of a variable as it is declared.
pub open spec fn variable_symbol(init: bool, id: IdentifierView, ty: FundamentalTypeView) -> SymbolView {
    SymbolView::Variable(VariableView { init, id, ty })
}

/// The symbol of a function with a body.
pub open spec fn function_symbol(
    id: IdentifierView,
    params: Seq<(Seq<char>, FundamentalTypeView)>,
    output: FundamentalTypeView,
) -> SymbolView {
    SymbolView::Function(FunctionView { id, params, output, body: true })
}

/// The diagnostic for a name that the table does not hold.
pub open spec fn unknown_variable(id: IdentifierView) -> TypeErrorView {
    TypeErrorView {
        kind: ErrorKind::Name,
        subject: id.name,
        text: "the variable '"@ + id.name + "' does not exist"@,
        span: id.span,
    }
}

/// The diagnostic for a name that stands for a function.
pub open spec fn not_a_variable(id: IdentifierView) -> TypeErrorView {
    TypeErrorView {
        kind: ErrorKind::Type,
        subject: id.name,
        text: "'"@ + id.name + "' is not a variable"@,
        span: id.span,
    }
}

/// The diagnostic for a variable that is read before it has a value.
pub open spec fn uninitialised_variable(id: IdentifierView) -> TypeErrorView {
    TypeErrorView {
        kind: ErrorKind::Uninitialized,
        subject: id.name,
        text: "attempt to access uninitialised variable '"@ + id.name + "'"@,
        span: id.span,
    }
}

/// What looking up the type of a variable gives: a diagnostic where the
/// name is absent, stands for a function, or stands for a variable that
/// has no value yet; otherwise the type that the table holds for it.
pub open spec fn variable_type_in(table: Map<Seq<char>, SymbolView>, id: IdentifierView) -> Result<
    FundamentalTypeView,
    TypeErrorView,
> {
    if !table.contains_key(id.name) {
        Err(unknown_variable(id))
    } else {
        match table[id.name] {
            SymbolView::Function(_) => Err(not_a_variable(id)),
            SymbolView::Variable(v) => if v.init {
                Ok(v.ty)
            } else {
                Err(uninitialised_variable(id))
            },
        }
    }
}

/// The view of the outcome of a lookup.
pub open spec fn lookup_view(r: Result<Type, TypeError>) -> Result<FundamentalTypeView, TypeErrorView> {
    match r {
        Ok(t) => Ok(t@),
        Err(e) => Err(e@),
    }
}

/// A text made of three parts: a word, a name, and another word.
pub fn framed(before: &str, name: &String, after: &str) -> (r: String)
    ensures
        r@ == before@ + name@ + after@,
{
    let mut text = String::from_str(before);
    text.append(name.as_str());
    text.append(after);
    text
}

/// The table of symbols: each name stands for at most one symbol, the one
/// that was entered last under it.
#[derive(Debug)]
pub struct SymbolTable {
    symbols: Vec<(String, Symbol)>,
}

impl View for SymbolTable {
    type V = Map<Seq<char>, SymbolView>;

    closed spec fn view(&self) -> Map<Seq<char>, SymbolView> {
        table_map(entries_view(self.symbols@))
    }
}

impl Clone for SymbolTable {
    /// A copy that holds the same symbols; what is entered in one of the
    /// two afterwards does not show in the other.
    fn clone(&self) -> (r: SymbolTable)
        ensures
            r@ == self@,
    {
        let mut symbols: Vec<(String, Symbol)> = Vec::new();
        let mut i: usize = 0;
        while i < self.symbols.len()
            invariant
                i <= self.symbols.len(),
                symbols@.len() == i,
                forall|j: int| 0 <= j < i ==> entry_view(symbols@[j]) == entry_view(self.symbols@[j]),
            decreases self.symbols.len() - i,
        {
            let entry = (self.symbols[i].0.clone(), self.symbols[i].1.clone());
            symbols.push(entry);
            i = i + 1;
        }
        assert(entries_view(symbols@) =~= entries_view(self.symbols@));
        SymbolTable { symbols }
    }
}

impl SymbolTable {
    /// A table that holds no symbol.
    pub fn new() -> (r: SymbolTable)
        ensures
            r@ == Map::<Seq<char>, SymbolView>::empty(),
    {
        SymbolTable { symbols: Vec::new() }
    }

    /// The place of the entry that counts for `name`, if there is one.
    fn find(&self, name: &String) -> (r: Option<usize>)
        ensures
            match r {
                Some(i) => i < self.symbols@.len() && self.symbols@[i as int].0@ == name@
                    && self@.contains_key(name@) && self@[name@] == self.symbols@[i as int].1@,
                None => !self@.contains_key(name@),
            },
    {
        let ghost entries = entries_view(self.symbols@);
        let mut i: usize = self.symbols.len();
        while i > 0
            invariant
                i <= self.symbols.len(),
                entries == entries_view(self.symbols@),
                forall|j: int| i <= j < entries.len() ==> entries[j].0 != name@,
            decreases i,
        {
            i = i - 1;
            if self.symbols[i].0 == *name {
                proof {
                    lemma_table_map_found(entries, name@, i as int);
                }
                return Some(i);
            }
        }
        proof {
            lemma_table_map_absent(entries, name@);
        }
        None
    }

    /// Enters `symbol` under `name`, in place of what stood there.
    fn enter(&mut self, name: String, symbol: Symbol)
        ensures
            final(self)@ == old(self)@.insert(name@, symbol@),
    {
        let ghost entries = entries_view(self.symbols@);
        let ghost name_view = name@;
        let ghost symbol_view = symbol@;
        let mut i: usize = self.symbols.len();
        while i > 0
            invariant
                i <= self.symbols.len(),
                entries == entries_view(self.symbols@),
                self.symbols == old(self).symbols,
                name_view == name@,
                symbol_view == symbol@,
                forall|j: int| i <= j < entries.len() ==> entries[j].0 != name_view,
            decreases i,
        {
            i = i - 1;
            if self.symbols[i].0 == name {
                self.symbols.set(i, (name, symbol));
                proof {
                    lemma_table_map_update(entries, name_view, symbol_view, i as int);
                    assert(entries_view(self.symbols@) =~= entries.update(
                        i as int,
                        (name_view, symbol_view),
                    ));
                }
                return ;
            }
        }
        self.symbols.push((name, symbol));
        proof {
            lemma_table_map_push(entries, name_view, symbol_view);
            assert(entries_view(self.symbols@) =~= entries.push((name_view, symbol_view)));
        }
    }

    /// Whether the table holds a symbol under `name`.
    pub fn contains(&self, name: &String) -> (r: bool)
        ensures
            r == self@.contains_key(name@),
    {
        self.find(name).is_some()
    }

    /// The symbol that `name` stands for, if the table holds one.
    pub fn get(&self, name: &String) -> (r: Option<&Symbol>)
        ensures
            match r {
                Some(s) => self@.contains_key(name@) && self@[name@] == s@,
                None => !self@.contains_key(name@),
            },
    {
        match self.find(name) {
            Some(i) => Some(&self.symbols[i].1),
            None => None,
        }
    }

    /// Enters a variable that has no value yet, in place of whatever the
    /// name stood for.
    pub fn declare_variable(&mut self, id: &Identifier, ty: Type)
        ensures
            final(self)@ == old(self)@.insert(id@.name, variable_symbol(false, id@, ty@)),
    {
        let symbol = Symbol::Variable(Variable::new(false, id.clone(), ty));
        self.enter(id.name.clone(), symbol);
    }

    /// Enters a variable that has a value, in place of whatever the name
    /// stood for.
    pub fn initialise_variable(&mut self, id: &Identifier, ty: Type)
        ensures
            final(self)@ == old(self)@.insert(id@.name, variable_symbol(true, id@, ty@)),
    {
        let symbol = Symbol::Variable(Variable::new(true, id.clone(), ty));
        self.enter(id.name.clone(), symbol);
    }

    /// The type of the variable that `id` names, where it can be read.
    pub fn variable_type(&self, id: &Identifier) -> (r: Result<Type, TypeError>)
        ensures
            lookup_view(r) == variable_type_in(self@, id@),
    {
        match self.get(&id.name) {
            None => Err(
                TypeError::new(
                    ErrorKind::Name,
                    id.name.clone(),
                    framed("the variable '", &id.name, "' does not exist"),
                    id.span,
                ),
            ),
            Some(Symbol::Function(_)) => Err(
                TypeError::new(
                    ErrorKind::Type,
                    id.name.clone(),
                    framed("'", &id.name, "' is not a variable"),
                    id.span,
                ),
            ),
            Some(Symbol::Variable(variable)) => {
                if !variable.is_initialised() {
                    Err(
                        TypeError::new(
                            ErrorKind::Uninitialized,
                            id.name.clone(),
                            framed("attempt to access uninitialised variable '", &id.name, "'"),
                            id.span,
                        ),
                    )
                } else {
                    Ok(variable.ty.clone())
                }
            },
        }
    }

    /// Enters a function with a body, in place of whatever the name stood
    /// for.
    pub fn define_function(&mut self, id: &Identifier, params: Vec<(String, Type)>, output: Type)
        ensures
            final(self)@ == old(self)@.insert(
                id@.name,
                function_symbol(id@, params_view(params@), output@),
            ),
    {
        let symbol = Symbol::Function(Function::new(true, id.clone(), params, output));
        self.enter(id.name.clone(), symbol);
    }
}

} // verus!
