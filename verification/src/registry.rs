//! Host capabilities that a plugin may import, and how a module's declared
//! imports are matched against them before it is instantiated.

use crate::clock::local_hour;
use crate::error::{Fault, HostError};
use vstd::prelude::*;

verus! {

/// A function the host offers to plugins. It reads host state only and never
/// touches a plugin's memory, so a plugin may call it in the middle of a
/// call the host made into it.
#[derive(Clone, Copy, Debug, PartialEq, Eq, Structural)]
pub enum HostFunction {
    /// The current local hour of day, 0 to 23.
    LocalHour,
    /// Always the same value.
    Fixed(i32),
}

impl HostFunction {
    /// Whether a call of this function can return `v`.
    pub open spec fn yields(self, v: i32) -> bool {
        match self {
            HostFunction::LocalHour => 0 <= v < 24,
            HostFunction::Fixed(c) => v == c,
        }
    }

    /// Calls the function.
    pub fn invoke(&self) -> (v: i32)
        ensures
            self.yields(v),
    {
        match self {
            HostFunction::LocalHour => local_hour() as i32,
            HostFunction::Fixed(c) => *c,
        }
    }
}

/// What kind of item a plugin imports, as the engine tells them apart: the
/// first five are the kinds a core module can import, the others those of a
/// component.
#[derive(Clone, Copy, Debug, PartialEq, Eq, Structural)]
pub enum ImportKind {
    Function,
    Global,
    Table,
    Memory,
    Tag,
    ComponentFunction,
    CoreFunction,
    Module,
    Component,
    ComponentInstance,
    Type,
    Resource,
}

impl ImportKind {
    /// Whether the host can provide an import of this kind: a module's
    /// function or a component's function, and nothing else.
    pub open spec fn providable(self) -> bool {
        self == ImportKind::Function || self == ImportKind::ComponentFunction
    }

    /// Tests whether the host can provide an import of this kind.
    pub fn is_providable(&self) -> (yes: bool)
        ensures
            yes == self.providable(),
    {
        match self {
            ImportKind::Function => true,
            ImportKind::ComponentFunction => true,
            _ => false,
        }
    }
}

/// One import that a plugin declares: the namespace and the name it asks
/// under and the kind of item it expects there. A component's imports have
/// no namespace; theirs is empty.
#[derive(Debug)]
pub struct ImportDecl {
    pub module: String,
    pub name: String,
    pub kind: ImportKind,
}

/// What an [`ImportDecl`] says, with its names as character sequences.
pub struct ImportView {
    pub module: Seq<char>,
    pub name: Seq<char>,
    pub kind: ImportKind,
}

impl View for ImportDecl {
    type V = ImportView;

    open spec fn view(&self) -> ImportView {
        ImportView { module: self.module@, name: self.name@, kind: self.kind }
    }
}

/// The views of a list of imports, in their order.
pub open spec fn import_views(declared: Seq<ImportDecl>) -> Seq<ImportView> {
    declared.map_values(|d: ImportDecl| d@)
}

/// A host function under the import name it is offered as.
#[derive(Debug)]
pub struct CapabilityBinding {
    pub import_name: String,
    pub host_function: HostFunction,
}

/// The capabilities registered for an instantiation, at most one per name.
/// Its view maps each registered name to its function.
pub struct CapabilityRegistry {
    bindings: Vec<CapabilityBinding>,
}

/// Whether `offered` satisfies an import of this name and kind: only
/// functions can be provided, and only under a registered name.
pub open spec fn satisfied(
    offered: Map<Seq<char>, HostFunction>,
    name: Seq<char>,
    kind: ImportKind,
) -> bool {
    kind.providable() && offered.contains_key(name)
}

/// The fault that resolving `declared` against `offered` ends in: the
/// first import, in the order of declaration, that nothing offered
/// satisfies; none where every import is satisfied.
pub open spec fn import_fault(
    offered: Map<Seq<char>, HostFunction>,
    declared: Seq<ImportView>,
) -> Option<Fault>
    decreases declared.len(),
{
    if declared.len() == 0 {
        None
    } else if !satisfied(offered, declared[0].name, declared[0].kind) {
        Some(Fault::UnsatisfiedImport { name: declared[0].name })
    } else {
        import_fault(offered, declared.drop_first())
    }
}

/// Resolution fails with nothing but an unsatisfied import, and that import
/// is one of those declared.
pub proof fn lemma_import_fault_names(
    offered: Map<Seq<char>, HostFunction>,
    declared: Seq<ImportView>,
)
    ensures
        import_fault(offered, declared) matches Some(fault) ==> exists|k: int|
            0 <= k < declared.len() && fault == (Fault::UnsatisfiedImport {
                name: #[trigger] declared[k].name,
            }),
    decreases declared.len(),
{
    if declared.len() != 0 && satisfied(offered, declared[0].name, declared[0].kind) {
        let rest = declared.drop_first();
        lemma_import_fault_names(offered, rest);
        if import_fault(offered, rest) is Some {
            let k = choose|k: int|
                0 <= k < rest.len() && import_fault(offered, rest)->0 == (Fault::UnsatisfiedImport {
                    name: #[trigger] rest[k].name,
                });
            assert(declared[k + 1].name == rest[k].name);
        }
    } else if declared.len() != 0 {
        assert(declared[0].name == declared[0].name);
    }
}

/// The import at `k` is the fault where it is the first unsatisfied one.
pub proof fn lemma_import_fault_at(
    offered: Map<Seq<char>, HostFunction>,
    declared: Seq<ImportView>,
    k: int,
)
    requires
        0 <= k < declared.len(),
        forall|i: int| 0 <= i < k ==> satisfied(offered, #[trigger] declared[i].name, declared[i].kind),
        !satisfied(offered, declared[k].name, declared[k].kind),
    ensures
        import_fault(offered, declared) == Some(
            Fault::UnsatisfiedImport { name: declared[k].name },
        ),
    decreases k,
{
    if k > 0 {
        let rest = declared.drop_first();
        assert(satisfied(offered, declared[0].name, declared[0].kind));
        assert forall|i: int| 0 <= i < k - 1 implies satisfied(
            offered,
            #[trigger] rest[i].name,
            rest[i].kind,
        ) by {
            assert(satisfied(offered, declared[i + 1].name, declared[i + 1].kind));
        }
        lemma_import_fault_at(offered, rest, k - 1);
    }
}

/// There is no fault where every import is satisfied.
pub proof fn lemma_import_fault_none(
    offered: Map<Seq<char>, HostFunction>,
    declared: Seq<ImportView>,
)
    requires
        forall|i: int|
            0 <= i < declared.len() ==> satisfied(
                offered,
                #[trigger] declared[i].name,
                declared[i].kind,
            ),
    ensures
        import_fault(offered, declared).is_none(),
    decreases declared.len(),
{
    if declared.len() != 0 {
        let rest = declared.drop_first();
        assert(satisfied(offered, declared[0].name, declared[0].kind));
        assert forall|i: int| 0 <= i < rest.len() implies satisfied(
            offered,
            #[trigger] rest[i].name,
            rest[i].kind,
        ) by {
            assert(satisfied(offered, declared[i + 1].name, declared[i + 1].kind));
        }
        lemma_import_fault_none(offered, rest);
    }
}

impl CapabilityRegistry {
    /// No two bindings carry the same name.
    pub closed spec fn wf(&self) -> bool {
        forall|i: int, j: int|
            0 <= i < j < self.bindings@.len() ==> self.bindings@[i].import_name@
                != self.bindings@[j].import_name@
    }

    spec fn position(&self, name: Seq<char>) -> int {
        choose|i: int| 0 <= i < self.bindings@.len() && self.bindings@[i].import_name@ == name
    }

    pub closed spec fn view(&self) -> Map<Seq<char>, HostFunction> {
        Map::new(
            |name: Seq<char>|
                exists|i: int|
                    0 <= i < self.bindings@.len() && self.bindings@[i].import_name@ == name,
            |name: Seq<char>| self.bindings@[self.position(name)].host_function,
        )
    }

    proof fn lemma_binding_in_view(&self, i: int)
        requires
            self.wf(),
            0 <= i < self.bindings@.len(),
        ensures
            self@.contains_key(self.bindings@[i].import_name@),
            self@[self.bindings@[i].import_name@] == self.bindings@[i].host_function,
    {
        let name = self.bindings@[i].import_name@;
        let p = self.position(name);
        assert(0 <= p < self.bindings@.len() && self.bindings@[p].import_name@ == name);
        if p < i {
            assert(self.bindings@[p].import_name@ != self.bindings@[i].import_name@);
        } else if i < p {
            assert(self.bindings@[i].import_name@ != self.bindings@[p].import_name@);
        }
    }

    /// A registry that offers nothing.
    pub fn empty() -> (registry: CapabilityRegistry)
        ensures
            registry.wf(),
            registry@ == Map::<Seq<char>, HostFunction>::empty(),
    {
        let registry = CapabilityRegistry { bindings: Vec::new() };
        assert(registry@ =~= Map::<Seq<char>, HostFunction>::empty());
        registry
    }

    fn find(&self, name: &String) -> (at: Option<usize>)
        requires
            self.wf(),
        ensures
            match at {
                Some(i) => i < self.bindings@.len() && self.bindings@[i as int].import_name@
                    == name@,
                None => !self@.contains_key(name@),
            },
    {
        let mut i: usize = 0;
        while i < self.bindings.len()
            invariant
                i <= self.bindings@.len(),
                forall|k: int| 0 <= k < i ==> self.bindings@[k].import_name@ != name@,
            decreases self.bindings@.len() - i,
        {
            if self.bindings[i].import_name == *name {
                return Some(i);
            }
            i += 1;
        }
        None
    }

    /// Offers `host_function` under `import_name`, in place of whatever was
    /// offered under that name before.
    pub fn register(&mut self, import_name: &str, host_function: HostFunction)
        requires
            old(self).wf(),
        ensures
            final(self).wf(),
            final(self)@ == old(self)@.insert(import_name@, host_function),
    {
        let name: String = import_name.to_owned();
        let ghost before = *self;
        match self.find(&name) {
            Some(i) => {
                self.bindings[i].host_function = host_function;
                proof {
                    assert(self.wf());
                    assert forall|n: Seq<char>| #[trigger]
                        self@.contains_key(n) == before@.insert(name@, host_function).contains_key(
                            n,
                        ) by {
                        if self@.contains_key(n) {
                            let k = self.position(n);
                            assert(before.bindings@[k].import_name@ == n);
                        }
                        if before@.contains_key(n) {
                            let k = before.position(n);
                            assert(self.bindings@[k].import_name@ == n);
                        }
                        assert(self.bindings@[i as int].import_name@ == name@);
                    }
                    assert forall|n: Seq<char>| #[trigger] self@.contains_key(n) implies self@[n]
                        == before@.insert(name@, host_function)[n] by {
                        let k = self.position(n);
                        self.lemma_binding_in_view(k);
                        if k != i as int {
                            assert(before.bindings@[k].import_name@ == n);
                            before.lemma_binding_in_view(k);
                        }
                    }
                    assert(self@ =~= before@.insert(name@, host_function));
                }
            },
            None => {
                self.bindings.push(CapabilityBinding { import_name: name, host_function });
                proof {
                    let last = self.bindings@.len() - 1;
                    assert forall|i: int, j: int|
                        0 <= i < j < self.bindings@.len() implies self.bindings@[i].import_name@
                        != self.bindings@[j].import_name@ by {
                        if j == last {
                            assert(before.bindings@[i].import_name@ == self.bindings@[i].import_name@);
                            if self.bindings@[i].import_name@ == import_name@ {
                                assert(before@.contains_key(import_name@));
                            }
                        } else {
                            assert(before.bindings@[i] == self.bindings@[i]);
                            assert(before.bindings@[j] == self.bindings@[j]);
                        }
                    }
                    assert forall|n: Seq<char>| #[trigger]
                        self@.contains_key(n) == before@.insert(
                            import_name@,
                            host_function,
                        ).contains_key(n) by {
                        if self@.contains_key(n) {
                            let k = self.position(n);
                            if k != last {
                                assert(before.bindings@[k].import_name@ == n);
                            }
                        }
                        if before@.contains_key(n) {
                            let k = before.position(n);
                            assert(self.bindings@[k].import_name@ == n);
                        }
                        assert(self.bindings@[last].import_name@ == import_name@);
                    }
                    assert forall|n: Seq<char>| #[trigger] self@.contains_key(n) implies self@[n]
                        == before@.insert(import_name@, host_function)[n] by {
                        let k = self.position(n);
                        self.lemma_binding_in_view(k);
                        if k != last {
                            assert(before.bindings@[k] == self.bindings@[k]);
                            before.lemma_binding_in_view(k);
                        }
                    }
                    assert(self@ =~= before@.insert(import_name@, host_function));
                }
            },
        }
    }

    /// The function offered under `import_name`, if there is one.
    pub fn lookup(&self, import_name: &str) -> (found: Option<HostFunction>)
        requires
            self.wf(),
        ensures
            found == if self@.contains_key(import_name@) {
                Some(self@[import_name@])
            } else {
                None
            },
    {
        let name: String = import_name.to_owned();
        match self.find(&name) {
            Some(i) => {
                proof {
                    self.lemma_binding_in_view(i as int);
                }
                Some(self.bindings[i].host_function)
            },
            None => None,
        }
    }

    /// Matches the imports a module declares, in their order, against the
    /// registry. Gives the function for each import, or the name of the
    /// first import that nothing registered satisfies.
    pub fn resolve(&self, imports: &Vec<ImportDecl>) -> (resolved: Result<
        Vec<HostFunction>,
        HostError,
    >)
        requires
            self.wf(),
        ensures
            match resolved {
                Ok(_) => import_fault(self@, import_views(imports@)).is_none(),
                Err(e) => import_fault(self@, import_views(imports@)) == Some(e@),
            },
            match resolved {
                Ok(functions) => {
                    &&& functions@.len() == imports@.len()
                    &&& forall|i: int|
                        0 <= i < imports@.len() ==> satisfied(
                            self@,
                            #[trigger] imports@[i].name@,
                            imports@[i].kind,
                        ) && functions@[i] == self@[imports@[i].name@]
                },
                Err(e) => exists|k: int|
                    {
                        &&& 0 <= k < imports@.len()
                        &&& !satisfied(self@, #[trigger] imports@[k].name@, imports@[k].kind)
                        &&& forall|i: int|
                            0 <= i < k ==> satisfied(
                                self@,
                                #[trigger] imports@[i].name@,
                                imports@[i].kind,
                            )
                        &&& e@ == (crate::error::Fault::UnsatisfiedImport {
                            name: imports@[k].name@,
                        })
                    },
            },
    {
        let mut functions: Vec<HostFunction> = Vec::new();
        let mut i: usize = 0;
        while i < imports.len()
            invariant
                self.wf(),
                i <= imports@.len(),
                functions@.len() == i,
                forall|k: int|
                    0 <= k < i ==> satisfied(self@, #[trigger] imports@[k].name@, imports@[k].kind)
                        && functions@[k] == self@[imports@[k].name@],
            decreases imports@.len() - i,
        {
            let found: Option<HostFunction> = if imports[i].kind.is_providable() {
                self.lookup(imports[i].name.as_str())
            } else {
                None
            };
            match found {
                Some(f) => {
                    functions.push(f);
                },
                None => {
                    proof {
                        let views = import_views(imports@);
                        assert forall|k: int| 0 <= k < i implies satisfied(
                            self@,
                            #[trigger] views[k].name,
                            views[k].kind,
                        ) by {
                            assert(satisfied(self@, imports@[k].name@, imports@[k].kind));
                        }
                        assert(views[i as int] == imports@[i as int]@);
                        lemma_import_fault_at(self@, views, i as int);
                    }
                    return Err(HostError::UnsatisfiedImport { name: imports[i].name.clone() });
                },
            }
            i += 1;
        }
        proof {
            let views = import_views(imports@);
            assert forall|k: int| 0 <= k < views.len() implies satisfied(
                self@,
                #[trigger] views[k].name,
                views[k].kind,
            ) by {
                assert(satisfied(self@, imports@[k].name@, imports@[k].kind));
            }
            lemma_import_fault_none(self@, views);
        }
        Ok(functions)
    }
}

} // verus!
