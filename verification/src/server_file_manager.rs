//! The registry of server instances.
//!
//! [`ServerFileManager`] keeps the instance registry that the original
//! stores as a JSON file on disk: the embedding application loads and
//! saves the file, while every rule — unique names, what an update may
//! touch — lives here.

use vstd::prelude::*;

use crate::strmap::StrMap;

verus! {

/// The default memory allowance of a new instance, in megabytes.
pub fn default_memory() -> (r: u32)
    ensures
        r == 2048,
{
    2048
}

/// Errors of the instance registry.
#[derive(Debug, Clone, PartialEq)]
pub enum InstanceError {
    /// An instance with this name already exists.
    AlreadyExists(String),
    /// No instance with this name exists.
    NotFound(String),
}

/// One managed server installation.
#[derive(Debug)]
pub struct ServerInstance {
    pub name: String,
    pub version: String,
    pub mod_loader: String,
    pub mod_loader_version: String,
    pub storage_path: String,
    pub description: Option<String>,
    pub memory_mb: u32,
}

impl ServerInstance {
    /// A fresh instance stored under `base_storage_path/name`, with no
    /// description and the default memory allowance.
    pub fn new(
        name: String,
        version: String,
        mod_loader: String,
        mod_loader_version: String,
        base_storage_path: &str,
    ) -> (s: Self)
        ensures
            s.name == name,
            s.version == version,
            s.mod_loader == mod_loader,
            s.mod_loader_version == mod_loader_version,
            s.storage_path@ == base_storage_path@ + "/"@ + name@,
            s.description is None,
            s.memory_mb == 2048,
    {
        let storage_path = String::from_str(base_storage_path).concat("/").concat(name.as_str());
        ServerInstance {
            name,
            version,
            mod_loader,
            mod_loader_version,
            storage_path,
            description: None,
            memory_mb: default_memory(),
        }
    }

    /// A field-for-field copy.
    pub fn duplicate(&self) -> (c: Self)
        ensures
            c == *self,
    {
        ServerInstance {
            name: self.name.clone(),
            version: self.version.clone(),
            mod_loader: self.mod_loader.clone(),
            mod_loader_version: self.mod_loader_version.clone(),
            storage_path: self.storage_path.clone(),
            description: match &self.description {
                Some(d) => Some(d.clone()),
                None => None,
            },
            memory_mb: self.memory_mb,
        }
    }
}

/// The instance registry: instances by name.
pub struct ServerConfig {
    pub instances: StrMap<ServerInstance>,
}

impl ServerConfig {
    /// An empty registry.
    pub fn new() -> (c: Self)
        ensures
            c.instances.wf(),
            c.instances@ == Map::<Seq<char>, ServerInstance>::empty(),
    {
        ServerConfig { instances: StrMap::new() }
    }
}

/// The instance registry with the path of its backing file.  The
/// application loads the file into `config` and writes it back after each
/// change.
pub struct ServerFileManager {
    pub config_path: String,
    pub config: ServerConfig,
}

impl ServerFileManager {
    pub open spec fn wf(&self) -> bool {
        self.config.instances.wf()
    }

    /// A manager for the registry file at `config_path`, starting empty.
    pub fn new(config_path: String) -> (m: Self)
        ensures
            m.wf(),
            m.config_path == config_path,
            m.config.instances@ == Map::<Seq<char>, ServerInstance>::empty(),
    {
        ServerFileManager { config_path, config: ServerConfig::new() }
    }

    /// Adds a new instance; a name already in use is refused.
    pub fn add_instance(&mut self, instance: ServerInstance) -> (r: Result<(), InstanceError>)
        requires
            old(self).wf(),
        ensures
            final(self).wf(),
            final(self).config_path == old(self).config_path,
            r is Ok <==> !old(self).config.instances@.contains_key(instance.name@),
            r is Ok ==> final(self).config.instances@ == old(self).config.instances@.insert(
                instance.name@,
                instance,
            ),
            r matches Err(e) ==> (e matches InstanceError::AlreadyExists(n) && n@
                == instance.name@ && *final(self) == *old(self)),
    {
        if self.config.instances.contains_key(instance.name.as_str()) {
            let name = instance.name.clone();
            return Err(InstanceError::AlreadyExists(name));
        }
        let key = instance.name.clone();
        self.config.instances.insert(key, instance);
        Ok(())
    }

    /// Removes the instance called `name`; an unknown name is refused.
    pub fn remove_instance(&mut self, name: &str) -> (r: Result<(), InstanceError>)
        requires
            old(self).wf(),
        ensures
            final(self).wf(),
            final(self).config_path == old(self).config_path,
            r is Ok <==> old(self).config.instances@.contains_key(name@),
            r is Ok ==> final(self).config.instances@ == old(self).config.instances@.remove(
                name@,
            ),
            r matches Err(e) ==> (e matches InstanceError::NotFound(n) && n@ == name@ && *final(self) == *old(self)),
    {
        if !self.config.instances.contains_key(name) {
            return Err(InstanceError::NotFound(name.to_owned()));
        }
        let _ = self.config.instances.remove(name);
        Ok(())
    }

    /// Replaces the instance called `name`; an unknown name is refused.
    pub fn update_instance(&mut self, name: &str, updated_instance: ServerInstance) -> (r: Result<
        (),
        InstanceError,
    >)
        requires
            old(self).wf(),
        ensures
            final(self).wf(),
            final(self).config_path == old(self).config_path,
            r is Ok <==> old(self).config.instances@.contains_key(name@),
            r is Ok ==> final(self).config.instances@ == old(self).config.instances@.insert(
                name@,
                updated_instance,
            ),
            r matches Err(e) ==> (e matches InstanceError::NotFound(n) && n@ == name@ && *final(self) == *old(self)),
    {
        if !self.config.instances.contains_key(name) {
            return Err(InstanceError::NotFound(name.to_owned()));
        }
        self.config.instances.insert(name.to_owned(), updated_instance);
        Ok(())
    }

    /// The instance called `name`, if any.
    pub fn get_instance(&self, name: &str) -> (r: Option<ServerInstance>)
        requires
            self.wf(),
        ensures
            r is Some <==> self.config.instances@.contains_key(name@),
            r matches Some(i) ==> i == self.config.instances@[name@],
    {
        match self.config.instances.get(name) {
            Some(i) => Some(i.duplicate()),
            None => None,
        }
    }

    /// Every registered instance, in the registry's storage order.
    pub fn get_all_instances(&self) -> (r: Vec<ServerInstance>)
        requires
            self.wf(),
        ensures
            r@.len() == self.config.instances.spec_len(),
            forall|p: int|
                0 <= p < r@.len() ==> r@[p] == #[trigger] self.config.instances.spec_value_at(p),
            forall|k: Seq<char>|
                #[trigger] self.config.instances@.contains_key(k) ==> exists|p: int|
                    0 <= p < r@.len() && r@[p] == self.config.instances@[k],
    {
        let n = self.config.instances.len();
        let mut r: Vec<ServerInstance> = Vec::new();
        let mut i: usize = 0;
        while i < n
            invariant
                self.wf(),
                n == self.config.instances.spec_len(),
                0 <= i <= n,
                r@.len() == i,
                forall|p: int|
                    0 <= p < i ==> r@[p] == #[trigger] self.config.instances.spec_value_at(p),
            decreases n - i,
        {
            let inst = self.config.instances.value_at(i);
            r.push(inst.duplicate());
            i = i + 1;
        }
        proof {
            assert forall|k: Seq<char>|
                #[trigger] self.config.instances@.contains_key(k) implies exists|p: int|
                0 <= p < r@.len() && r@[p] == self.config.instances@[k] by {
                self.config.instances.lemma_keys_covered(k);
                let p = choose|p: int|
                    0 <= p < self.config.instances.spec_len()
                        && #[trigger] self.config.instances.spec_key_at(p) == k;
                self.config.instances.lemma_at(p);
                assert(r@[p] == self.config.instances@[k]);
            }
        }
        r
    }

    /// Whether an instance called `name` is registered.
    pub fn instance_exists(&self, name: &str) -> (r: bool)
        ensures
            r == self.config.instances@.contains_key(name@),
    {
        self.config.instances.contains_key(name)
    }
}

} // verus!
