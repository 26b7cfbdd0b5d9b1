//! Service definitions of the exec backend, keyed by service name.
use vstd::prelude::*;
use crate::error::ShikiError;
use crate::text::str_eq;

verus! {

/// How the exec backend controls one service.
#[derive(Debug, Clone)]
pub struct ServiceDefinition {
    /// Start command.
    pub start: String,
    /// Stop command.
    pub stop: String,
    /// Status command: exit status 0 means running.
    pub status: String,
    /// Reload command.
    pub reload: Option<String>,
    /// Restart command; without one a restart is a stop followed by a start.
    pub restart: Option<String>,
    /// Working directory of the commands.
    pub working_dir: Option<String>,
    /// Environment entries, `KEY=VALUE`.
    pub env: Vec<String>,
    /// Deadline of each command, in seconds.
    pub timeout: Option<u64>,
}

/// Mathematical value of a [`ServiceDefinition`].
pub struct DefinitionModel {
    pub start: String,
    pub stop: String,
    pub status: String,
    pub reload: Option<String>,
    pub restart: Option<String>,
    pub working_dir: Option<String>,
    pub env: Seq<String>,
    pub timeout: Option<u64>,
}

impl View for ServiceDefinition {
    type V = DefinitionModel;

    open spec fn view(&self) -> DefinitionModel {
        DefinitionModel {
            start: self.start,
            stop: self.stop,
            status: self.status,
            reload: self.reload,
            restart: self.restart,
            working_dir: self.working_dir,
            env: self.env@,
            timeout: self.timeout,
        }
    }
}

impl Default for ServiceDefinition {
    fn default() -> (r: ServiceDefinition)
        ensures
            r.start@.len() == 0,
            r.stop@.len() == 0,
            r.status@.len() == 0,
            r.reload is None,
            r.restart is None,
            r.working_dir is None,
            r.env@.len() == 0,
            r.timeout is None,
    {
        ServiceDefinition {
            start: String::new(),
            stop: String::new(),
            status: String::new(),
            reload: None,
            restart: None,
            working_dir: None,
            env: Vec::new(),
            timeout: None,
        }
    }
}

/// What is wrong with the definition of service `name`, if anything: each
/// of the start, stop and status commands is required.
pub open spec fn definition_problem(name: Seq<char>, d: DefinitionModel) -> Option<Seq<char>> {
    if d.start@.len() == 0 {
        Some("Service '"@ + name + "': start command is required"@)
    } else if d.stop@.len() == 0 {
        Some("Service '"@ + name + "': stop command is required"@)
    } else if d.status@.len() == 0 {
        Some("Service '"@ + name + "': status command is required"@)
    } else {
        None
    }
}

fn required_message(name: &str, field: &str) -> (r: String)
    ensures
        r@ == "Service '"@ + name@ + "': "@ + field@ + " command is required"@,
{
    String::from_str("Service '").concat(name).concat("': ").concat(field).concat(" command is required")
}

/// A copy of a list of strings.
pub fn copy_strings(v: &Vec<String>) -> (r: Vec<String>)
    ensures
        r@ == v@,
{
    let mut out: Vec<String> = Vec::new();
    let mut i: usize = 0;
    while i < v.len()
        invariant
            i <= v@.len(),
            out@ == v@.take(i as int),
        decreases v@.len() - i,
    {
        out.push(v[i].clone());
        proof {
            assert(out@ =~= v@.take(i + 1));
        }
        i = i + 1;
    }
    assert(v@.take(i as int) =~= v@);
    out
}

fn copy_opt(o: &Option<String>) -> (r: Option<String>)
    ensures
        r == *o,
{
    match o {
        Some(s) => Some(s.clone()),
        None => None,
    }
}

impl ServiceDefinition {
    /// A copy of the definition.
    pub fn copy(&self) -> (r: ServiceDefinition)
        ensures
            r@ == self@,
    {
        ServiceDefinition {
            start: self.start.clone(),
            stop: self.stop.clone(),
            status: self.status.clone(),
            reload: copy_opt(&self.reload),
            restart: copy_opt(&self.restart),
            working_dir: copy_opt(&self.working_dir),
            env: copy_strings(&self.env),
            timeout: self.timeout,
        }
    }

    /// Checks that the start, stop and status commands are present.
    pub fn validate(&self, name: &str) -> (r: Result<(), ShikiError>)
        ensures
            r is Ok <==> definition_problem(name@, self@) is None,
            r matches Err(e) ==> e matches ShikiError::Config { message } && Some(message@)
                == definition_problem(name@, self@),
    {
        proof {
            reveal_strlit("': ");
            reveal_strlit("start");
            reveal_strlit("stop");
            reveal_strlit("status");
            reveal_strlit("': start command is required");
            reveal_strlit("': stop command is required");
            reveal_strlit("': status command is required");
            reveal_strlit(" command is required");
        }
        if self.start.as_str().unicode_len() == 0 {
            let m = required_message(name, "start");
            assert(m@ =~= "Service '"@ + name@ + "': start command is required"@);
            return Err(ShikiError::Config { message: m });
        }
        if self.stop.as_str().unicode_len() == 0 {
            let m = required_message(name, "stop");
            assert(m@ =~= "Service '"@ + name@ + "': stop command is required"@);
            return Err(ShikiError::Config { message: m });
        }
        if self.status.as_str().unicode_len() == 0 {
            let m = required_message(name, "status");
            assert(m@ =~= "Service '"@ + name@ + "': status command is required"@);
            return Err(ShikiError::Config { message: m });
        }
        Ok(())
    }
}

/// Service definitions keyed by name, in order of first insertion.
#[derive(Debug)]
pub struct ServiceMap {
    entries: Vec<(String, ServiceDefinition)>,
}

/// Whether `es` holds an entry named `name` at `i`, and none before it.
pub open spec fn first_at(es: Seq<(String, DefinitionModel)>, name: Seq<char>, i: int) -> bool {
    &&& 0 <= i < es.len()
    &&& es[i].0@ == name
    &&& forall|j: int| 0 <= j < i ==> es[j].0@ != name
}

/// Whether `es` holds an entry named `name`.
pub open spec fn has_name(es: Seq<(String, DefinitionModel)>, name: Seq<char>) -> bool {
    exists|i: int| 0 <= i < es.len() && es[i].0@ == name
}

/// The definition of `name` in `es`.
pub open spec fn lookup(es: Seq<(String, DefinitionModel)>, name: Seq<char>) -> Option<
    DefinitionModel,
> {
    if has_name(es, name) {
        Some(es[choose|i: int| first_at(es, name, i)].1)
    } else {
        None
    }
}

/// Whether no two entries of `es` share a name.
pub open spec fn distinct_names(es: Seq<(String, DefinitionModel)>) -> bool {
    forall|i: int, j: int| 0 <= i < j < es.len() ==> es[i].0@ != es[j].0@
}

/// The names of the entries of `es`, in order.
pub open spec fn entry_names(es: Seq<(String, DefinitionModel)>) -> Seq<Seq<char>> {
    es.map_values(|e: (String, DefinitionModel)| e.0@)
}

proof fn lemma_first_at_unique(es: Seq<(String, DefinitionModel)>, name: Seq<char>, i: int, k: int)
    requires
        first_at(es, name, i),
        first_at(es, name, k),
    ensures
        i == k,
{
}

proof fn lemma_lookup_at(es: Seq<(String, DefinitionModel)>, name: Seq<char>, i: int)
    requires
        first_at(es, name, i),
    ensures
        lookup(es, name) == Some(es[i].1),
{
    let k = choose|k: int| first_at(es, name, k);
    lemma_first_at_unique(es, name, i, k);
}

impl Clone for ServiceMap {
    fn clone(&self) -> (r: ServiceMap)
        ensures
            r@ == self@,
    {
        self.copy()
    }
}

impl View for ServiceMap {
    type V = Seq<(String, DefinitionModel)>;

    closed spec fn view(&self) -> Seq<(String, DefinitionModel)> {
        self.entries@.map_values(|e: (String, ServiceDefinition)| (e.0, e.1@))
    }
}

impl ServiceMap {
    /// No two services share a name.
    #[verifier::type_invariant]
    spec fn names_are_distinct(&self) -> bool {
        distinct_names(self@)
    }

    /// An empty map.
    pub fn new() -> (r: ServiceMap)
        ensures
            r@.len() == 0,
            distinct_names(r@),
    {
        ServiceMap { entries: Vec::new() }
    }

    /// Number of services.
    pub fn len(&self) -> (r: usize)
        ensures
            r == self@.len(),
    {
        self.entries.len()
    }

    /// Whether there are no services.
    pub fn is_empty(&self) -> (r: bool)
        ensures
            r == (self@.len() == 0),
    {
        self.entries.len() == 0
    }

    fn position(&self, name: &str) -> (r: Option<usize>)
        ensures
            r matches Some(i) ==> first_at(self@, name@, i as int),
            r is None ==> !has_name(self@, name@),
    {
        let mut i: usize = 0;
        while i < self.entries.len()
            invariant
                i <= self@.len(),
                self@ == self.entries@.map_values(|e: (String, ServiceDefinition)| (e.0, e.1@)),
                forall|j: int| 0 <= j < i ==> self@[j].0@ != name@,
            decreases self@.len() - i,
        {
            if str_eq(self.entries[i].0.as_str(), name) {
                return Some(i);
            }
            i = i + 1;
        }
        None
    }

    /// The definition of a service.
    pub fn get(&self, name: &str) -> (r: Option<&ServiceDefinition>)
        ensures
            r matches Some(d) ==> lookup(self@, name@) == Some(d@),
            r is None ==> lookup(self@, name@) is None,
    {
        match self.position(name) {
            Some(i) => {
                proof {
                    lemma_lookup_at(self@, name@, i as int);
                }
                Some(&self.entries[i].1)
            },
            None => None,
        }
    }

    /// Whether a service is defined.
    pub fn contains_key(&self, name: &str) -> (r: bool)
        ensures
            r == has_name(self@, name@),
    {
        self.position(name).is_some()
    }

    /// Defines a service, replacing an earlier definition of the same name.
    pub fn insert(&mut self, name: String, definition: ServiceDefinition)
        ensures
            has_name(old(self)@, name@) ==> exists|i: int|
                first_at(old(self)@, name@, i) && final(self)@ == old(self)@.update(i, (name, definition@)),
            !has_name(old(self)@, name@) ==> final(self)@ == old(self)@.push((name, definition@)),
            lookup(final(self)@, name@) == Some(definition@),
            distinct_names(final(self)@),
    {
        proof {
            use_type_invariant(&*self);
        }
        let pos = self.position(name.as_str());
        let ghost n = name@;
        let ghost before = self@;
        let ghost entry = (name, definition@);
        let mut entries: Vec<(String, ServiceDefinition)> = Vec::new();
        core::mem::swap(&mut self.entries, &mut entries);
        assert(entries@.map_values(|e: (String, ServiceDefinition)| (e.0, e.1@)) == before);
        match pos {
            Some(i) => {
                entries[i] = (name, definition);
                proof {
                    assert(entries@.map_values(|e: (String, ServiceDefinition)| (e.0, e.1@)) =~= before.update(
                        i as int,
                        entry,
                    ));
                    assert(before[i as int].0@ == n);
                }
            },
            None => {
                entries.push((name, definition));
                proof {
                    assert(entries@.map_values(|e: (String, ServiceDefinition)| (e.0, e.1@)) =~= before.push(
                        entry,
                    ));
                }
            },
        }
        proof {
            let after = entries@.map_values(|e: (String, ServiceDefinition)| (e.0, e.1@));
            assert(distinct_names(after));
        }
        core::mem::swap(&mut self.entries, &mut entries);
        proof {
            match pos {
                Some(i) => {
                    assert(first_at(self@, n, i as int));
                    lemma_lookup_at(self@, n, i as int);
                },
                None => {
                    let k = (self@.len() - 1) as int;
                    assert(first_at(self@, n, k));
                    lemma_lookup_at(self@, n, k);
                },
            }
        }
    }

    /// The names of the services, in order; no name appears twice.
    pub fn names(&self) -> (r: Vec<String>)
        ensures
            r@.map_values(|s: String| s@) == entry_names(self@),
            forall|i: int, j: int| 0 <= i < j < r@.len() ==> r@[i]@ != r@[j]@,
    {
        proof {
            use_type_invariant(self);
        }
        let mut out: Vec<String> = Vec::new();
        let mut i: usize = 0;
        while i < self.entries.len()
            invariant
                i <= self@.len(),
                self@ == self.entries@.map_values(|e: (String, ServiceDefinition)| (e.0, e.1@)),
                out@.map_values(|s: String| s@) == entry_names(self@).take(i as int),
            decreases self@.len() - i,
        {
            out.push(self.entries[i].0.clone());
            proof {
                assert(entry_names(self@).take(i + 1) =~= entry_names(self@).take(i as int).push(
                    self@[i as int].0@,
                ));
                assert(out@.map_values(|s: String| s@) =~= entry_names(self@).take(i + 1));
            }
            i = i + 1;
        }
        proof {
            assert(entry_names(self@).take(i as int) =~= entry_names(self@));
            assert forall|a: int, b: int| 0 <= a < b < out@.len() implies out@[a]@ != out@[b]@ by {
                assert(out@.map_values(|s: String| s@)[a] == out@[a]@);
                assert(out@.map_values(|s: String| s@)[b] == out@[b]@);
                assert(entry_names(self@)[a] == self@[a].0@);
                assert(entry_names(self@)[b] == self@[b].0@);
            }
        }
        out
    }

    /// A copy of the map.
    pub fn copy(&self) -> (r: ServiceMap)
        ensures
            r@ == self@,
            distinct_names(r@),
    {
        proof {
            use_type_invariant(self);
        }
        let mut out: Vec<(String, ServiceDefinition)> = Vec::new();
        let mut i: usize = 0;
        while i < self.entries.len()
            invariant
                i <= self@.len(),
                self@ == self.entries@.map_values(|e: (String, ServiceDefinition)| (e.0, e.1@)),
                out@.map_values(|e: (String, ServiceDefinition)| (e.0, e.1@)) == self@.take(i as int),
            decreases self@.len() - i,
        {
            let ghost before = out@;
            let e = (self.entries[i].0.clone(), self.entries[i].1.copy());
            assert((e.0, e.1@) == self@[i as int]);
            out.push(e);
            proof {
                assert(out@.map_values(|e: (String, ServiceDefinition)| (e.0, e.1@)) =~= before.map_values(
                    |e: (String, ServiceDefinition)| (e.0, e.1@),
                ).push((e.0, e.1@)));
                assert(out@.map_values(|e: (String, ServiceDefinition)| (e.0, e.1@)) =~= self@.take(
                    i + 1,
                ));
            }
            i = i + 1;
        }
        assert(self@.take(i as int) =~= self@);
        ServiceMap { entries: out }
    }

    /// The entry at a position.
    pub fn entry(&self, i: usize) -> (r: (&String, &ServiceDefinition))
        requires
            i < self@.len(),
        ensures
            *r.0 == self@[i as int].0,
            r.1@ == self@[i as int].1,
    {
        (&self.entries[i].0, &self.entries[i].1)
    }
}

} // verus!
