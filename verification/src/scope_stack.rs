//! The scope stack: the symbol tables of the scopes that are open, the
//! global scope at the bottom and the innermost scope on top.

use vstd::prelude::*;
use vstd::string::*;
use crate::grammar::const_type::VarType;
use crate::name_map::{lemma_absent, lemma_present, lemma_update, map_of};
use crate::semantic_error::{SemanticError, SemanticErrorView};
use crate::text::{append_decimal, decimal, str_eq};

verus! {

/// What opened a scope.
#[derive(Debug, Clone, Copy, PartialEq, Eq, Hash, Structural)]
pub enum ScopeType {
    /// The body of a function.
    Function,
    /// The body of a loop.
    Loop,
    /// The initialisation, condition and increment of a loop.
    LoopInit,
    /// The then-branch of a conditional.
    If,
    /// The else-branch of a conditional.
    Else,
    /// The global scope, or a block in braces.
    Any,
}

impl ScopeType {
    /// The identifier of the variant.
    pub open spec fn variant_name(self) -> Seq<char> {
        match self {
            ScopeType::Function => "Function"@,
            ScopeType::Loop => "Loop"@,
            ScopeType::LoopInit => "LoopInit"@,
            ScopeType::If => "If"@,
            ScopeType::Else => "Else"@,
            ScopeType::Any => "Any"@,
        }
    }

    /// The identifier of the variant.
    pub fn as_variant_name(&self) -> (r: &'static str)
        ensures
            r@ == self.variant_name(),
    {
        match self {
            ScopeType::Function => "Function",
            ScopeType::Loop => "Loop",
            ScopeType::LoopInit => "LoopInit",
            ScopeType::If => "If",
            ScopeType::Else => "Else",
            ScopeType::Any => "Any",
        }
    }
}

/// What a scope knows of a name: where it appears, its type (for a
/// function, the types of its parameters in order), the bounds of its
/// dimensions, and whether a function definition declared it.
#[derive(Debug, PartialEq, Eq)]
pub struct SymbolEntry {
    /// The places of the declaration and of each use, as line and column.
    pub appearances: Vec<(usize, usize)>,
    /// The type of a variable; for a function, the types of its
    /// parameters in order.
    pub var_type: Vec<VarType>,
    /// The bounds that a variable was declared with, outermost first.
    pub const_index: Vec<u32>,
    /// Whether the name is that of a function. A function is no value,
    /// however many parameters it has.
    pub is_function: bool,
}

/// The mathematical value of a [`SymbolEntry`].
pub struct SymbolEntryView {
    pub appearances: Seq<(usize, usize)>,
    pub var_type: Seq<VarType>,
    pub const_index: Seq<u32>,
    pub is_function: bool,
}

impl View for SymbolEntry {
    type V = SymbolEntryView;

    open spec fn view(&self) -> SymbolEntryView {
        SymbolEntryView {
            appearances: self.appearances@,
            var_type: self.var_type@,
            const_index: self.const_index@,
            is_function: self.is_function,
        }
    }
}

impl SymbolEntryView {
    /// The entry with one more appearance.
    pub open spec fn seen_at(self, line: usize, column: usize) -> SymbolEntryView {
        SymbolEntryView {
            appearances: self.appearances.push((line, column)),
            var_type: self.var_type,
            const_index: self.const_index,
            is_function: self.is_function,
        }
    }

    /// The type that the name has as a value: the type of a variable.
    /// The name of a function has none, and neither has an entry
    /// without a type.
    pub open spec fn value_type(self) -> Option<VarType> {
        if !self.is_function && self.var_type.len() > 0 {
            Some(self.var_type[0])
        } else {
            None
        }
    }

    /// The place of the last appearance, or line 0, column 0 where the
    /// entry has none.
    pub open spec fn last_place(self) -> (usize, usize) {
        if self.appearances.len() > 0 {
            self.appearances.last()
        } else {
            (0, 0)
        }
    }
}

fn copy_places(v: &Vec<(usize, usize)>) -> (r: Vec<(usize, usize)>)
    ensures
        r@ == v@,
{
    let mut r: Vec<(usize, usize)> = Vec::new();
    let mut i: usize = 0;
    while i < v.len()
        invariant
            i <= v@.len(),
            r@ == v@.take(i as int),
        decreases v@.len() - i,
    {
        r.push(v[i]);
        i = i + 1;
        assert(r@ =~= v@.take(i as int));
    }
    assert(v@.take(v@.len() as int) =~= v@);
    r
}

fn copy_types(v: &Vec<VarType>) -> (r: Vec<VarType>)
    ensures
        r@ == v@,
{
    let mut r: Vec<VarType> = Vec::new();
    let mut i: usize = 0;
    while i < v.len()
        invariant
            i <= v@.len(),
            r@ == v@.take(i as int),
        decreases v@.len() - i,
    {
        r.push(v[i]);
        i = i + 1;
        assert(r@ =~= v@.take(i as int));
    }
    assert(v@.take(v@.len() as int) =~= v@);
    r
}

fn copy_bounds(v: &Vec<u32>) -> (r: Vec<u32>)
    ensures
        r@ == v@,
{
    let mut r: Vec<u32> = Vec::new();
    let mut i: usize = 0;
    while i < v.len()
        invariant
            i <= v@.len(),
            r@ == v@.take(i as int),
        decreases v@.len() - i,
    {
        r.push(v[i]);
        i = i + 1;
        assert(r@ =~= v@.take(i as int));
    }
    assert(v@.take(v@.len() as int) =~= v@);
    r
}

impl Clone for SymbolEntry {
    fn clone(&self) -> (r: Self)
        ensures
            r@ == self@,
    {
        SymbolEntry {
            appearances: copy_places(&self.appearances),
            var_type: copy_types(&self.var_type),
            const_index: copy_bounds(&self.const_index),
            is_function: self.is_function,
        }
    }
}

/// The map that a list of names with their entries stands for: of two
/// pairs with one name the later one counts.
pub open spec fn table_of(pairs: Seq<(String, SymbolEntry)>) -> Map<Seq<char>, SymbolEntryView> {
    map_of(pairs)
}

/// The symbol table of one scope: a map from names to entries.
#[derive(Debug, PartialEq, Eq)]
pub struct SymbolTable {
    pairs: Vec<(String, SymbolEntry)>,
}

impl View for SymbolTable {
    type V = Map<Seq<char>, SymbolEntryView>;

    closed spec fn view(&self) -> Map<Seq<char>, SymbolEntryView> {
        table_of(self.pairs@)
    }
}

impl SymbolTable {
    /// The table without names.
    pub fn new() -> (r: SymbolTable)
        ensures
            r@ == Map::<Seq<char>, SymbolEntryView>::empty(),
    {
        SymbolTable { pairs: Vec::new() }
    }

    /// Where the last pair that holds `name` stands.
    fn find(&self, name: &str) -> (r: Option<usize>)
        ensures
            match r {
                Some(i) => {
                    &&& i < self.pairs@.len()
                    &&& self.pairs@[i as int].0@ == name@
                    &&& forall|j: int| i < j < self.pairs@.len() ==> self.pairs@[j].0@ != name@
                    &&& self@.dom().contains(name@)
                    &&& self@[name@] == self.pairs@[i as int].1@
                },
                None => !self@.dom().contains(name@),
            },
    {
        let mut i: usize = self.pairs.len();
        while i > 0
            invariant
                i <= self.pairs@.len(),
                forall|j: int| i <= j < self.pairs@.len() ==> self.pairs@[j].0@ != name@,
            decreases i,
        {
            i = i - 1;
            if str_eq(self.pairs[i].0.as_str(), name) {
                proof {
                    lemma_present(self.pairs@, name@, i as int);
                }
                return Some(i);
            }
        }
        proof {
            lemma_absent(self.pairs@, name@);
        }
        None
    }

    /// Whether the table holds `name`.
    pub fn contains_key(&self, name: &str) -> (r: bool)
        ensures
            r == self@.dom().contains(name@),
    {
        self.find(name).is_some()
    }

    /// The entry of `name`, if the table holds the name.
    pub fn get(&self, name: &str) -> (r: Option<&SymbolEntry>)
        ensures
            match r {
                Some(entry) => self@.dom().contains(name@) && self@[name@] == entry@,
                None => !self@.dom().contains(name@),
            },
    {
        match self.find(name) {
            Some(i) => Some(&self.pairs[i].1),
            None => None,
        }
    }

    /// Gives `name` the entry `entry`, whether or not the table held
    /// the name.
    pub fn insert(&mut self, name: String, entry: SymbolEntry)
        ensures
            final(self)@ == old(self)@.insert(name@, entry@),
    {
        let ghost before = self.pairs@;
        self.pairs.push((name, entry));
        assert(self.pairs@.drop_last() =~= before);
    }

    /// Adds line and column to the appearances of `name`. Returns
    /// whether the table holds the name; if not, nothing changes.
    pub fn record(&mut self, name: &str, line: usize, column: usize) -> (r: bool)
        ensures
            r == old(self)@.dom().contains(name@),
            r ==> final(self)@ == old(self)@.insert(
                name@,
                old(self)@[name@].seen_at(line, column),
            ),
            !r ==> final(self)@ == old(self)@,
    {
        match self.find(name) {
            Some(i) => {
                let ghost before = self.pairs@;
                let (key, entry) = self.pairs.remove(i);
                let mut entry = entry;
                entry.appearances.push((line, column));
                self.pairs.insert(i, (key, entry));
                proof {
                    lemma_update(before, self.pairs@, name@, i as int);
                    assert(self.pairs@[i as int].1@ =~= before[i as int].1@.seen_at(line, column));
                }
                true
            },
            None => false,
        }
    }

    /// The names with their entries in the order in which they were
    /// added.
    pub closed spec fn entries(&self) -> Seq<(String, SymbolEntry)> {
        self.pairs@
    }

    /// The names with their entries, those added later behind.
    pub fn pairs(&self) -> (r: &Vec<(String, SymbolEntry)>)
        ensures
            r@ == self.entries(),
            table_of(r@) == self@,
    {
        &self.pairs
    }
}

impl Clone for SymbolTable {
    fn clone(&self) -> (r: Self)
        ensures
            r@ == self@,
    {
        let mut copy = SymbolTable::new();
        let mut i: usize = 0;
        assert(self.pairs@.take(0) =~= Seq::<(String, SymbolEntry)>::empty());
        while i < self.pairs.len()
            invariant
                i <= self.pairs@.len(),
                copy@ == table_of(self.pairs@.take(i as int)),
            decreases self.pairs@.len() - i,
        {
            proof {
                let next = self.pairs@.take(i as int + 1);
                assert(next.drop_last() =~= self.pairs@.take(i as int));
                assert(next.last() == self.pairs@[i as int]);
            }
            copy.insert(self.pairs[i].0.clone(), self.pairs[i].1.clone());
            i = i + 1;
        }
        assert(self.pairs@.take(self.pairs@.len() as int) =~= self.pairs@);
        copy
    }
}

/// A scope: what opened it, and its symbol table.
#[derive(Debug, PartialEq, Eq)]
pub struct Scope {
    pub kind: ScopeType,
    pub symbols: SymbolTable,
}

/// The mathematical value of a [`Scope`].
pub struct ScopeView {
    pub kind: ScopeType,
    pub symbols: Map<Seq<char>, SymbolEntryView>,
}

impl View for Scope {
    type V = ScopeView;

    open spec fn view(&self) -> ScopeView {
        ScopeView { kind: self.kind, symbols: self.symbols@ }
    }
}

impl Clone for Scope {
    fn clone(&self) -> (r: Self)
        ensures
            r@ == self@,
    {
        Scope { kind: self.kind, symbols: self.symbols.clone() }
    }
}

/// The values of a list of scopes.
pub open spec fn scope_views(scopes: Seq<Scope>) -> Seq<ScopeView> {
    Seq::new(scopes.len(), |i: int| scopes[i]@)
}

/// The stack of the open scopes, the innermost last, with the record of
/// the scopes that were closed, the one closed last at its end.
#[derive(Debug, PartialEq, Eq)]
pub struct ScopeStack {
    pub stack: Vec<Scope>,
    pub closed: Vec<Scope>,
}

/// The mathematical value of a [`ScopeStack`].
pub struct Scopes {
    /// The open scopes, the global scope first and the innermost last.
    pub open: Seq<ScopeView>,
    /// The scopes that were closed, as they were when they were closed,
    /// in the order of their closing.
    pub closed: Seq<ScopeView>,
}

impl Scopes {
    /// How many scopes are open.
    pub open spec fn len(self) -> nat {
        self.open.len()
    }

    /// The open scope at the height `i`, counted from the global scope.
    pub open spec fn spec_index(self, i: int) -> ScopeView {
        self.open[i]
    }
}

impl View for ScopeStack {
    type V = Scopes;

    open spec fn view(&self) -> Scopes {
        Scopes { open: scope_views(self.stack@), closed: scope_views(self.closed@) }
    }
}

/// A scope of kind `kind` that declares nothing.
pub open spec fn empty_scope(kind: ScopeType) -> ScopeView {
    ScopeView { kind, symbols: Map::empty() }
}

/// The stack that holds the global scope alone, with nothing closed.
pub open spec fn initial_scopes() -> Scopes {
    Scopes { open: seq![empty_scope(ScopeType::Any)], closed: Seq::empty() }
}

/// The stack with a new innermost scope.
pub open spec fn pushed(scopes: Scopes, kind: ScopeType) -> Scopes {
    Scopes { open: scopes.open.push(empty_scope(kind)), closed: scopes.closed }
}

/// The stack without its innermost scope, which joins the record of the
/// closed scopes.
pub open spec fn popped(scopes: Scopes) -> Scopes {
    if scopes.open.len() > 0 {
        Scopes { open: scopes.open.drop_last(), closed: scopes.closed.push(scopes.open.last()) }
    } else {
        scopes
    }
}

/// Whether the innermost scope declares `name`.
pub open spec fn declared_here(scopes: Scopes, name: Seq<char>) -> bool {
    scopes.open.len() > 0 && scopes.open.last().symbols.dom().contains(name)
}

/// The stack in which the innermost scope declares `name` with `entry`.
pub open spec fn declared(scopes: Scopes, name: Seq<char>, entry: SymbolEntryView) -> Scopes {
    if scopes.open.len() > 0 {
        Scopes {
            open: scopes.open.update(
                scopes.open.len() - 1,
                ScopeView {
                    kind: scopes.open.last().kind,
                    symbols: scopes.open.last().symbols.insert(name, entry),
                },
            ),
            closed: scopes.closed,
        }
    } else {
        scopes
    }
}

/// The innermost of the scopes `open` that declares `name`, as its
/// position among them.
pub open spec fn resolve(open: Seq<ScopeView>, name: Seq<char>) -> Option<int>
    decreases open.len(),
{
    if open.len() == 0 {
        None
    } else if open.last().symbols.dom().contains(name) {
        Some(open.len() - 1)
    } else {
        resolve(open.drop_last(), name)
    }
}

/// The entry of `name` in the innermost open scope that declares it.
pub open spec fn lookup(scopes: Scopes, name: Seq<char>) -> Option<SymbolEntryView> {
    match resolve(scopes.open, name) {
        Some(i) => Some(scopes.open[i].symbols[name]),
        None => None,
    }
}

/// The stack after a use of `name` at line and column: the innermost
/// open scope that declares the name records the place. Without such
/// a scope the stack stays as it is.
pub open spec fn used(scopes: Scopes, name: Seq<char>, line: usize, column: usize) -> Scopes {
    match resolve(scopes.open, name) {
        Some(i) => Scopes {
            open: scopes.open.update(
                i,
                ScopeView {
                    kind: scopes.open[i].kind,
                    symbols: scopes.open[i].symbols.insert(
                        name,
                        scopes.open[i].symbols[name].seen_at(line, column),
                    ),
                },
            ),
            closed: scopes.closed,
        },
        None => scopes,
    }
}

/// Whether a scope of kind `kind` is open.
pub open spec fn has_kind(scopes: Scopes, kind: ScopeType) -> bool {
    exists|i: int| 0 <= i < scopes.open.len() && #[trigger] scopes.open[i].kind == kind
}

/// The scopes that are open in `before` are all still open in `after`,
/// each where it was and of the kind it was: whatever was opened since
/// lies above them. Each of them still declares every name that it
/// declared. And the record of the closed scopes has only grown at its
/// end.
pub open spec fn keeps_below(before: Scopes, after: Scopes) -> bool {
    &&& before.open.len() <= after.open.len()
    &&& forall|i: int|
        #![trigger before.open[i]]
        #![trigger after.open[i]]
        0 <= i < before.open.len() ==> after.open[i].kind == before.open[i].kind
    &&& forall|i: int, name: Seq<char>|
        #![trigger before.open[i].symbols.dom().contains(name)]
        #![trigger after.open[i].symbols.dom().contains(name)]
        0 <= i < before.open.len() && before.open[i].symbols.dom().contains(name)
            ==> after.open[i].symbols.dom().contains(name)
    &&& before.closed.len() <= after.closed.len()
    &&& forall|i: int|
        #![trigger before.closed[i]]
        #![trigger after.closed[i]]
        0 <= i < before.closed.len() ==> after.closed[i] == before.closed[i]
}

/// How many scopes were opened between `before` and `after`: every
/// scope that was opened since is open or in the record of the closed
/// scopes.
pub open spec fn opened_since(before: Scopes, after: Scopes) -> int {
    (after.open.len() + after.closed.len()) - (before.open.len() + before.closed.len())
}

/// How many scopes were closed between `before` and `after`: by how
/// much the record of the closed scopes has grown.
pub open spec fn closed_since(before: Scopes, after: Scopes) -> int {
    after.closed.len() - before.closed.len()
}

/// What the operations count for: a push opens one scope and closes
/// none, a pop with a scope open closes one and opens none, and the
/// pop hands the scope that was pushed last to the record.
pub proof fn lemma_push_and_pop_count(scopes: Scopes, kind: ScopeType)
    ensures
        opened_since(scopes, pushed(scopes, kind)) == 1,
        closed_since(scopes, pushed(scopes, kind)) == 0,
        scopes.open.len() > 0 ==> opened_since(scopes, popped(scopes)) == 0,
        scopes.open.len() > 0 ==> closed_since(scopes, popped(scopes)) == 1,
        popped(pushed(scopes, kind)).open == scopes.open,
        popped(pushed(scopes, kind)).closed == scopes.closed.push(empty_scope(kind)),
{
    assert(popped(pushed(scopes, kind)).open =~= scopes.open);
}

/// A use or a declaration opens and closes no scope.
pub proof fn lemma_same_scopes(scopes: Scopes, name: Seq<char>)
    ensures
        forall|line: usize, column: usize|
            keeps_below(scopes, #[trigger] used(scopes, name, line, column)) && used(
                scopes,
                name,
                line,
                column,
            ).open.len() == scopes.open.len() && used(scopes, name, line, column).closed
                == scopes.closed,
        forall|entry: SymbolEntryView|
            keeps_below(scopes, #[trigger] declared(scopes, name, entry)) && declared(
                scopes,
                name,
                entry,
            ).open.len() == scopes.open.len() && declared(scopes, name, entry).closed
                == scopes.closed,
{
    lemma_resolve(scopes.open, name);
}

/// What a name resolves to: a scope that declares it, with no scope
/// above that does; or nothing, where no scope declares it.
pub proof fn lemma_resolve(open: Seq<ScopeView>, name: Seq<char>)
    ensures
        match resolve(open, name) {
            Some(i) => {
                &&& 0 <= i < open.len()
                &&& open[i].symbols.dom().contains(name)
                &&& forall|j: int| i < j < open.len() ==> !open[j].symbols.dom().contains(name)
            },
            None => forall|j: int| 0 <= j < open.len() ==> !open[j].symbols.dom().contains(name),
        },
    decreases open.len(),
{
    if open.len() > 0 && !open.last().symbols.dom().contains(name) {
        let below = open.drop_last();
        lemma_resolve(below, name);
        assert(forall|j: int| 0 <= j < below.len() ==> below[j] == open[j]);
    }
}

/// A scope that declares a name, with none above it that does, is the
/// one that the name resolves to.
pub proof fn lemma_resolve_at(open: Seq<ScopeView>, name: Seq<char>, i: int)
    requires
        0 <= i < open.len(),
        open[i].symbols.dom().contains(name),
        forall|j: int| i < j < open.len() ==> !open[j].symbols.dom().contains(name),
    ensures
        resolve(open, name) == Some(i),
    decreases open.len(),
{
    if i < open.len() - 1 {
        lemma_resolve_at(open.drop_last(), name, i);
    }
}

impl ScopeStack {
    /// The stack that holds the global scope alone, with nothing
    /// closed.
    pub fn new() -> (r: ScopeStack)
        ensures
            r@ == initial_scopes(),
    {
        let mut stack: Vec<Scope> = Vec::new();
        stack.push(Scope { kind: ScopeType::Any, symbols: SymbolTable::new() });
        let r = ScopeStack { stack, closed: Vec::new() };
        assert(r@.open =~= initial_scopes().open);
        assert(r@.closed =~= initial_scopes().closed);
        r
    }

    /// Opens a scope of kind `scope_type`.
    pub fn push_scope(&mut self, scope_type: ScopeType)
        ensures
            final(self)@ == pushed(old(self)@, scope_type),
    {
        self.stack.push(Scope { kind: scope_type, symbols: SymbolTable::new() });
        assert(self@.open =~= pushed(old(self)@, scope_type).open);
    }

    /// Closes the innermost scope and adds it to the record of the
    /// closed scopes. Returns whether a scope was open.
    pub fn close_scope(&mut self) -> (r: bool)
        ensures
            final(self)@ == popped(old(self)@),
            r == (old(self)@.open.len() > 0),
    {
        match self.stack.pop() {
            Some(scope) => {
                self.closed.push(scope);
                assert(self@.open =~= popped(old(self)@).open);
                assert(self@.closed =~= popped(old(self)@).closed);
                true
            },
            None => false,
        }
    }

    /// Closes the innermost scope, adds it to the record of the closed
    /// scopes and returns a copy of it; `None` where no scope is open.
    pub fn pop_scope(&mut self) -> (r: Option<Scope>)
        ensures
            final(self)@ == popped(old(self)@),
            match r {
                Some(scope) => old(self)@.open.len() > 0 && scope@ == old(self)@.open.last(),
                None => old(self)@.open.len() == 0,
            },
    {
        if self.stack.len() == 0 {
            return None;
        }
        let copy = self.stack[self.stack.len() - 1].clone();
        self.close_scope();
        Some(copy)
    }

    /// Declares `name` with `entry` in the innermost scope. A name that
    /// this scope declares already is a redefinition; its place is that
    /// of the last appearance of `entry`.
    pub fn insert_symbol(&mut self, name: String, entry: SymbolEntry) -> (r: Result<
        (),
        SemanticError,
    >)
        requires
            old(self)@.open.len() > 0,
        ensures
            keeps_below(old(self)@, final(self)@),
            final(self)@.open.len() == old(self)@.open.len(),
            match r {
                Ok(()) => {
                    &&& !declared_here(old(self)@, name@)
                    &&& final(self)@ == declared(old(self)@, name@, entry@)
                },
                Err(e) => {
                    &&& declared_here(old(self)@, name@)
                    &&& final(self)@ == old(self)@
                    &&& e@ == SemanticErrorView::Redefinition {
                        name: name@,
                        line: entry@.last_place().0,
                        column: entry@.last_place().1,
                    }
                },
            },
    {
        let top = self.stack.len() - 1;
        assert(self@.open[top as int] == self.stack@[top as int]@);
        if self.stack[top].symbols.contains_key(name.as_str()) {
            let (line, column) = if entry.appearances.len() > 0 {
                entry.appearances[entry.appearances.len() - 1]
            } else {
                (0, 0)
            };
            return Err(SemanticError::Redefinition { name, line, column });
        }
        let mut scope = self.stack.pop().unwrap();
        proof {
            lemma_same_scopes(old(self)@, name@);
        }
        scope.symbols.insert(name, entry);
        self.stack.push(scope);
        assert(self@.open =~= declared(old(self)@, name@, entry@).open);
        Ok(())
    }

    /// Where the innermost scope that declares `name` stands.
    fn find(&self, name: &str) -> (r: Option<usize>)
        ensures
            match r {
                Some(i) => resolve(self@.open, name@) == Some(i as int) && i < self.stack@.len(),
                None => resolve(self@.open, name@).is_none(),
            },
    {
        let mut i: usize = self.stack.len();
        while i > 0
            invariant
                i <= self.stack@.len(),
                forall|j: int|
                    i <= j < self.stack@.len() ==> !self@.open[j].symbols.dom().contains(name@),
            decreases i,
        {
            i = i - 1;
            if self.stack[i].symbols.contains_key(name) {
                proof {
                    assert(self@.open[i as int] == self.stack@[i as int]@);
                    lemma_resolve_at(self@.open, name@, i as int);
                }
                return Some(i);
            }
            assert(self@.open[i as int] == self.stack@[i as int]@);
        }
        proof {
            lemma_resolve(self@.open, name@);
        }
        None
    }

    /// The entry of `name` in the innermost scope that declares it.
    pub fn get_symbol(&self, name: &str) -> (r: Option<SymbolEntry>)
        ensures
            match r {
                Some(entry) => lookup(self@, name@) == Some(entry@),
                None => lookup(self@, name@).is_none(),
            },
    {
        match self.find(name) {
            Some(i) => {
                proof {
                    lemma_resolve(self@.open, name@);
                    assert(self@.open[i as int].symbols == self.stack@[i as int].symbols@);
                }
                match self.stack[i].symbols.get(name) {
                    Some(entry) => Some(entry.clone()),
                    None => None,
                }
            },
            None => None,
        }
    }

    /// Records a use of `name` at line and column in the innermost
    /// scope that declares it. A name that no open scope declares is
    /// an error, and the stack stays as it is.
    pub fn count_appearance(&mut self, name: &str, line: usize, column: usize) -> (r: Result<
        (),
        SemanticError,
    >)
        ensures
            final(self)@ == used(old(self)@, name@, line, column),
            keeps_below(old(self)@, final(self)@),
            final(self)@.open.len() == old(self)@.open.len(),
            match r {
                Ok(()) => lookup(old(self)@, name@).is_some(),
                Err(e) => {
                    &&& lookup(old(self)@, name@).is_none()
                    &&& e@ == SemanticErrorView::SymbolNotFound { name: name@, line, column }
                },
            },
    {
        proof {
            lemma_same_scopes(old(self)@, name@);
        }
        match self.find(name) {
            Some(i) => {
                proof {
                    lemma_resolve(self@.open, name@);
                    assert(self@.open[i as int].symbols == self.stack@[i as int].symbols@);
                }
                let ghost before = self.stack@;
                let mut scope = self.stack.remove(i);
                scope.symbols.record(name, line, column);
                let ghost changed = scope@;
                self.stack.insert(i, scope);
                proof {
                    let after = used(old(self)@, name@, line, column);
                    assert(self.stack@.len() == before.len());
                    assert(self.stack@[i as int]@ == changed);
                    assert forall|j: int| 0 <= j < before.len() implies self@.open[j]
                        == after.open[j] by {
                        if j != i {
                            assert(self.stack@[j] == before[j]);
                            assert(old(self)@.open[j] == before[j]@);
                        }
                    }
                    assert(self@.open =~= after.open);
                }
                Ok(())
            },
            None => Err(SemanticError::SymbolNotFound { name: name.to_owned(), line, column }),
        }
    }

    /// Whether a scope of kind `scope_type` is open.
    pub fn contains(&self, scope_type: ScopeType) -> (r: bool)
        ensures
            r == has_kind(self@, scope_type),
    {
        let mut i: usize = self.stack.len();
        while i > 0
            invariant
                i <= self.stack@.len(),
                forall|j: int| i <= j < self.stack@.len() ==> self@.open[j].kind != scope_type,
            decreases i,
        {
            i = i - 1;
            if self.stack[i].kind == scope_type {
                assert(self@.open[i as int].kind == scope_type);
                return true;
            }
        }
        false
    }
}

/// The text of a list: the texts of the items from the one at `from`
/// on, with a comma and a blank between two of them, added to `text`
/// and closed with a bracket.
pub open spec fn list_from<T>(
    items: Seq<T>,
    show: spec_fn(T) -> Seq<char>,
    from: int,
    text: Seq<char>,
) -> Seq<char>
    decreases items.len() - from,
{
    if 0 <= from < items.len() {
        list_from(
            items,
            show,
            from + 1,
            if from > 0 {
                text + ", "@ + show(items[from])
            } else {
                text + show(items[from])
            },
        )
    } else {
        text + "]"@
    }
}

/// The text of a list between brackets.
pub open spec fn list_text<T>(items: Seq<T>, show: spec_fn(T) -> Seq<char>) -> Seq<char> {
    list_from(items, show, 0, "["@)
}

/// The text of a place: line and column between parentheses.
pub open spec fn place_text(place: (usize, usize)) -> Seq<char> {
    "("@ + decimal(place.0 as nat) + ", "@ + decimal(place.1 as nat) + ")"@
}

impl SymbolEntryView {
    /// The type as a report shows it: the type alone where there is
    /// one, else the list of the types.
    pub open spec fn type_text(self) -> Seq<char> {
        if self.var_type.len() == 1 {
            self.var_type[0].variant_name()
        } else {
            list_text(self.var_type, |var_type: VarType| var_type.variant_name())
        }
    }

    /// The line of a report for the name `name` with this entry.
    pub open spec fn report_line(self, name: Seq<char>) -> Seq<char> {
        "\n  Símbolo: "@ + name + ", Tipo: "@ + self.type_text() + ", Índices: "@ + list_text(
            self.const_index,
            |bound: u32| decimal(bound as nat),
        ) + ", Aparições: "@ + list_text(
            self.appearances,
            |place: (usize, usize)| place_text(place),
        )
    }
}

/// The report of a scope, from the entry at `from` on, added to `text`:
/// one line for each name.
pub open spec fn report_from(entries: Seq<(String, SymbolEntry)>, from: int, text: Seq<char>)
    -> Seq<char>
    decreases entries.len() - from,
{
    if 0 <= from < entries.len() {
        report_from(
            entries,
            from + 1,
            text + entries[from].1@.report_line(entries[from].0@),
        )
    } else {
        text
    }
}

/// The report of the scopes from the one at `from` on, added to
/// `text`: for each scope its kind and the lines of its names, and an
/// empty line behind it.
pub open spec fn reports_from(scopes: Seq<Scope>, from: int, text: Seq<char>) -> Seq<char>
    decreases scopes.len() - from,
{
    if 0 <= from < scopes.len() {
        reports_from(
            scopes,
            from + 1,
            report_from(
                scopes[from].symbols.entries(),
                0,
                text + "Escopo: "@ + scopes[from].kind.variant_name(),
            ) + "\n\n"@,
        )
    } else {
        text
    }
}

#[verifier::loop_isolation(false)]
fn append_types(out: &mut String, types: &Vec<VarType>)
    ensures
        final(out)@ == old(out)@ + list_text(
            types@,
            |var_type: VarType| var_type.variant_name(),
        ),
{
    let ghost show = |var_type: VarType| var_type.variant_name();
    let mut text = String::from_str("[");
    let mut i: usize = 0;
    while i < types.len()
        invariant
            i <= types@.len(),
            list_text(types@, show) == list_from(types@, show, i as int, text@),
        decreases types@.len() - i,
    {
        if i > 0 {
            text.append(", ");
        }
        text.append(types[i].as_variant_name());
        i = i + 1;
    }
    text.append("]");
    out.append(text.as_str());
}

#[verifier::loop_isolation(false)]
fn append_bounds(out: &mut String, bounds: &Vec<u32>)
    ensures
        final(out)@ == old(out)@ + list_text(bounds@, |bound: u32| decimal(bound as nat)),
{
    let ghost show = |bound: u32| decimal(bound as nat);
    let mut text = String::from_str("[");
    let mut i: usize = 0;
    while i < bounds.len()
        invariant
            i <= bounds@.len(),
            list_text(bounds@, show) == list_from(bounds@, show, i as int, text@),
        decreases bounds@.len() - i,
    {
        if i > 0 {
            text.append(", ");
        }
        append_decimal(&mut text, bounds[i] as u64);
        i = i + 1;
    }
    text.append("]");
    out.append(text.as_str());
}

#[verifier::loop_isolation(false)]
fn append_places(out: &mut String, places: &Vec<(usize, usize)>)
    ensures
        final(out)@ == old(out)@ + list_text(
            places@,
            |place: (usize, usize)| place_text(place),
        ),
{
    let ghost show = |place: (usize, usize)| place_text(place);
    let mut text = String::from_str("[");
    let mut i: usize = 0;
    while i < places.len()
        invariant
            i <= places@.len(),
            list_text(places@, show) == list_from(places@, show, i as int, text@),
        decreases places@.len() - i,
    {
        let mut place = String::from_str("(");
        append_decimal(&mut place, places[i].0 as u64);
        place.append(", ");
        append_decimal(&mut place, places[i].1 as u64);
        place.append(")");
        assert(place@ =~= place_text(places@[i as int]));
        if i > 0 {
            text.append(", ");
        }
        text.append(place.as_str());
        i = i + 1;
    }
    text.append("]");
    out.append(text.as_str());
}

impl SymbolEntry {
    /// The type that the name has as a value. See
    /// [`SymbolEntryView::value_type`].
    pub fn value_type(&self) -> (r: Option<VarType>)
        ensures
            r == self@.value_type(),
    {
        if !self.is_function && self.var_type.len() > 0 {
            Some(self.var_type[0])
        } else {
            None
        }
    }

    /// Appends the line of a report for the name `name` with this
    /// entry to `out`.
    pub fn append_report_line(&self, name: &str, out: &mut String)
        ensures
            final(out)@ == old(out)@ + self@.report_line(name@),
    {
        let mut line = String::from_str("\n  Símbolo: ");
        line.append(name);
        line.append(", Tipo: ");
        if self.var_type.len() == 1 {
            line.append(self.var_type[0].as_variant_name());
        } else {
            append_types(&mut line, &self.var_type);
        }
        line.append(", Índices: ");
        append_bounds(&mut line, &self.const_index);
        line.append(", Aparições: ");
        append_places(&mut line, &self.appearances);
        assert(line@ =~= self@.report_line(name@));
        out.append(line.as_str());
    }
}

impl Scope {
    /// Appends the report of the scope to `out`: its kind, one line for
    /// each name in the order in which the names were declared, and an
    /// empty line.
    pub fn append_report(&self, out: &mut String)
        ensures
            final(out)@ == report_from(
                self.symbols.entries(),
                0,
                old(out)@ + "Escopo: "@ + self.kind.variant_name(),
            ) + "\n\n"@,
    {
        out.append("Escopo: ");
        out.append(self.kind.as_variant_name());
        let pairs = self.symbols.pairs();
        let ghost start = out@;
        let mut i: usize = 0;
        while i < pairs.len()
            invariant
                i <= pairs@.len(),
                report_from(pairs@, 0, start) == report_from(pairs@, i as int, out@),
            decreases pairs@.len() - i,
        {
            pairs[i].1.append_report_line(pairs[i].0.as_str(), out);
            i = i + 1;
        }
        out.append("\n\n");
    }
}

impl ScopeStack {
    /// Appends the reports of the scopes that were closed to `out`, in
    /// the order of their closing.
    pub fn append_closed_report(&self, out: &mut String)
        ensures
            final(out)@ == reports_from(self.closed@, 0, old(out)@),
    {
        let mut i: usize = 0;
        while i < self.closed.len()
            invariant
                i <= self.closed@.len(),
                reports_from(self.closed@, 0, old(out)@) == reports_from(
                    self.closed@,
                    i as int,
                    out@,
                ),
            decreases self.closed@.len() - i,
        {
            self.closed[i].append_report(out);
            i = i + 1;
        }
    }
}

} // verus!
