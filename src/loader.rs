use vstd::prelude::*;
use crate::gitprocessor::{git_plans, GitProcessor};
use crate::parsers::ProcessorArgs;
use crate::processor::{texts, ProcessError, ProcessPlan, Processor};
use crate::value::ConfigValue;

verus! {

/// In a list without duplicates, an element's position is the one it stands at.
proof fn lemma_index_of_unique(s: Seq<Seq<char>>, i: int)
    requires
        s.no_duplicates(),
        0 <= i < s.len(),
    ensures
        s.contains(s[i]),
        s.index_of(s[i]) == i,
{
    assert(s[i] == s[i]);
    let k = s.index_of(s[i]);
    assert(0 <= k < s.len() && s[k] == s[i]);
}

/// The known processors.
pub enum ProcessorKind {
    Git(GitProcessor),
}

impl Processor for ProcessorKind {
    open spec fn kind_name(&self) -> Seq<char> {
        match self {
            ProcessorKind::Git(g) => g.kind_name(),
        }
    }

    open spec fn usage(&self) -> Seq<char> {
        match self {
            ProcessorKind::Git(g) => g.usage(),
        }
    }

    open spec fn plans(
        &self,
        prog_args: ProcessorArgs,
        config: ConfigValue,
        r: Result<ProcessPlan, ProcessError>,
    ) -> bool {
        match self {
            ProcessorKind::Git(g) => g.plans(prog_args, config, r),
        }
    }

    fn types(&self) -> (r: String) {
        match self {
            ProcessorKind::Git(g) => g.types(),
        }
    }

    fn help(&self) -> (r: String) {
        match self {
            ProcessorKind::Git(g) => g.help(),
        }
    }

    fn process(&self, prog_args: ProcessorArgs, config: &ConfigValue) -> (r: Result<
        ProcessPlan,
        ProcessError,
    >) {
        match self {
            ProcessorKind::Git(g) => g.process(prog_args, config),
        }
    }
}

/// Why a processor cannot be registered.
#[derive(Debug, PartialEq, Eq)]
pub enum RegistryError {
    /// A processor of the same name is already registered.
    Duplicate(String),
}

/// The processors by name: no two share a name.
pub struct Registry {
    entries: Vec<(String, ProcessorKind)>,
}

impl Registry {
    /// The registered names, in order of registration.
    pub closed spec fn names(&self) -> Seq<Seq<char>> {
        self.entries@.map_values(|e: (String, ProcessorKind)| e.0@)
    }

    /// The processor registered under `name`.
    pub closed spec fn get(&self, name: Seq<char>) -> Option<ProcessorKind> {
        if self.names().contains(name) {
            Some(self.entries@[self.names().index_of(name)].1)
        } else {
            None
        }
    }

    /// Names are unique, and each is its processor's own name.
    pub closed spec fn wf(&self) -> bool {
        &&& self.names().no_duplicates()
        &&& forall|i: int|
            0 <= i < self.entries@.len() ==> #[trigger] self.entries@[i].0@
                == self.entries@[i].1.kind_name()
    }

    /// The registry with no processor.
    pub fn new() -> (r: Registry)
        ensures
            r.wf(),
            r.names() == Seq::<Seq<char>>::empty(),
    {
        let r = Registry { entries: Vec::new() };
        assert(r.names() =~= Seq::<Seq<char>>::empty());
        r
    }

    /// Registers `processor` under its own name, unless that name is taken.
    pub fn register(&mut self, processor: ProcessorKind) -> (r: Result<(), RegistryError>)
        requires
            old(self).wf(),
        ensures
            final(self).wf(),
            old(self).names().contains(processor.kind_name()) ==> {
                &&& r matches Err(RegistryError::Duplicate(n))
                &&& n@ == processor.kind_name()
                &&& *final(self) == *old(self)
            },
            !old(self).names().contains(processor.kind_name()) ==> {
                &&& r is Ok
                &&& final(self).names() == old(self).names().push(processor.kind_name())
                &&& final(self).get(processor.kind_name()) == Some(processor)
                &&& forall|n: Seq<char>|
                    n != processor.kind_name() ==> #[trigger] final(self).get(n) == old(self).get(n)
            },
    {
        let name = processor.types();
        match self.find(&name) {
            Some(_) => Err(RegistryError::Duplicate(name)),
            None => {
                let ghost old_names = self.names();
                self.entries.push((name, processor));
                proof {
                    let nn = self.names();
                    assert(nn =~= old_names.push(processor.kind_name()));
                    assert(nn.no_duplicates()) by {
                        assert forall|a: int, b: int|
                            0 <= a < nn.len() && 0 <= b < nn.len() && a != b implies nn[a]
                            != nn[b] by {
                            if a < old_names.len() && b == old_names.len() {
                                assert(old_names.contains(nn[a]));
                            } else if b < old_names.len() && a == old_names.len() {
                                assert(old_names.contains(nn[b]));
                            }
                        }
                    }
                    lemma_index_of_unique(nn, old_names.len() as int);
                    assert forall|n: Seq<char>| n != processor.kind_name() implies #[trigger] self.get(n)
                        == old(self).get(n) by {
                        if old_names.contains(n) {
                            let k = choose|k: int| 0 <= k < old_names.len() && old_names[k] == n;
                            lemma_index_of_unique(old_names, k);
                            lemma_index_of_unique(nn, k);
                        } else {
                            assert(!nn.contains(n));
                        }
                    }
                }
                Ok(())
            },
        }
    }

    /// The position of `name` among the registered names.
    fn find(&self, name: &String) -> (r: Option<usize>)
        requires
            self.wf(),
        ensures
            match r {
                Some(i) => i < self.names().len() && self.names().index_of(name@) == i
                    && self.names().contains(name@),
                None => !self.names().contains(name@),
            },
    {
        let mut i: usize = 0;
        while i < self.entries.len()
            invariant
                self.wf(),
                i <= self.entries@.len(),
                forall|j: int| 0 <= j < i ==> #[trigger] self.names()[j] != name@,
            decreases self.entries.len() - i,
        {
            if self.entries[i].0 == *name {
                proof {
                    lemma_index_of_unique(self.names(), i as int);
                }
                return Some(i);
            }
            i = i + 1;
        }
        None
    }

    /// Whether a processor is registered under `name`.
    pub fn contains(&self, name: &String) -> (r: bool)
        requires
            self.wf(),
        ensures
            r == self.names().contains(name@),
    {
        self.find(name).is_some()
    }

    /// The processor registered under `name`, if any.
    pub fn lookup(&self, name: &String) -> (r: Option<&ProcessorKind>)
        requires
            self.wf(),
        ensures
            match r {
                Some(p) => self.get(name@) == Some(*p) && p.kind_name() == name@,
                None => self.get(name@) is None,
            },
            r is Some <==> self.names().contains(name@),
    {
        match self.find(name) {
            Some(i) => Some(&self.entries[i].1),
            None => None,
        }
    }

    /// The registered names, in order of registration.
    pub fn type_names(&self) -> (r: Vec<String>)
        ensures
            texts(r@) == self.names(),
    {
        let mut r: Vec<String> = Vec::new();
        let mut i: usize = 0;
        while i < self.entries.len()
            invariant
                i <= self.entries@.len(),
                r@.len() == i,
                forall|j: int| 0 <= j < i ==> #[trigger] r@[j]@ == self.entries@[j].0@,
            decreases self.entries.len() - i,
        {
            r.push(self.entries[i].0.clone());
            i = i + 1;
        }
        assert(texts(r@) =~= self.names());
        r
    }

    /// The usage text of the processor registered under `name`, if any.
    pub fn help_for(&self, name: &String) -> (r: Option<String>)
        requires
            self.wf(),
        ensures
            r is Some <==> self.names().contains(name@),
            r matches Some(h) ==> h@ == self.get(name@).unwrap().usage(),
    {
        match self.lookup(name) {
            Some(p) => Some(p.help()),
            None => None,
        }
    }
}

/// In a well-formed registry no two processors share a name, and the one found
/// under a name reports that name as its own.
pub proof fn lemma_registry_names_unique(reg: Registry, name: Seq<char>)
    requires
        reg.wf(),
    ensures
        reg.names().no_duplicates(),
        reg.get(name) is Some <==> reg.names().contains(name),
        reg.get(name) matches Some(p) ==> p.kind_name() == name,
{
    if reg.names().contains(name) {
        let k = choose|k: int| 0 <= k < reg.names().len() && reg.names()[k] == name;
        lemma_index_of_unique(reg.names(), k);
    }
}

/// Builds the registry of every known processor, each under its own name.
pub fn load_processors() -> (r: Registry)
    ensures
        r.wf(),
        r.names() == seq!["git"@],
        r.get("git"@) == Some(ProcessorKind::Git(GitProcessor)),
{
    let mut processors = Registry::new();
    let git = ProcessorKind::Git(GitProcessor);
    let registered = processors.register(git);
    assert(registered is Ok);
    assert(Seq::<Seq<char>>::empty().push("git"@) =~= seq!["git"@]);
    processors
}

} // verus!
