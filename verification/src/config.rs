//! The settings that the service is started with.

use vstd::prelude::*;
use vstd::string::StringExecFns;

verus! {

/// The kinds of change that an action can be configured for.
#[derive(Debug, Clone, Copy, PartialEq, Eq, Hash)]
pub enum FsEvent {
    Create,
    Delete,
}

/// One watched directory with the action configured for each kind of change.
#[derive(Debug, PartialEq, Eq)]
pub struct DirConf {
    pub path: String,
    pub create: Option<String>,
    pub delete: Option<String>,
}

impl DirConf {
    /// The action configured for `event`, if any.
    pub open spec fn configured(&self, event: FsEvent) -> Option<String> {
        match event {
            FsEvent::Create => self.create,
            FsEvent::Delete => self.delete,
        }
    }

    /// The action configured for `event`, if any.
    pub fn action(&self, event: FsEvent) -> (action: Option<&String>)
        ensures
            match action {
                Some(found) => self.configured(event) == Some(*found),
                None => self.configured(event) is None,
            },
    {
        match event {
            FsEvent::Create => self.create.as_ref(),
            FsEvent::Delete => self.delete.as_ref(),
        }
    }
}

/// The settings: the channel's name, the log file, whether the channel is
/// switched off, and the watched directories, each path at most once.
#[derive(Debug)]
pub struct Config {
    pub pipe_name: String,
    pub logfile: String,
    pub nopipe: bool,
    pub dirconfs: Vec<DirConf>,
}

/// The file that holds the settings where none is named.
pub open spec fn default_path() -> Seq<char> {
    ".\\dirmon.toml"@
}

/// The file to read the settings from: `path` where one is given, otherwise
/// the default.
pub fn resolve_path(path: Option<String>) -> (file: String)
    ensures
        file@ == match path {
            Some(given) => given@,
            None => default_path(),
        },
{
    match path {
        Some(given) => given,
        None => String::from_str(".\\dirmon.toml"),
    }
}

impl Config {
    /// No path is configured twice.
    pub open spec fn wf(&self) -> bool {
        forall|i: int, j: int|
            0 <= i < j < self.dirconfs@.len() ==> self.dirconfs@[i].path@ != self.dirconfs@[j].path@
    }

    /// The place of `path` among the directories, or their number where it is
    /// not configured.
    pub open spec fn position(&self, path: Seq<char>) -> int {
        if exists|i: int| 0 <= i < self.dirconfs@.len() && self.dirconfs@[i].path@ == path {
            choose|i: int| 0 <= i < self.dirconfs@.len() && self.dirconfs@[i].path@ == path
        } else {
            self.dirconfs@.len() as int
        }
    }

    /// Whether `path` is configured.
    pub open spec fn watches(&self, path: Seq<char>) -> bool {
        self.position(path) < self.dirconfs@.len()
    }

    /// Finds the place of `path`, or the number of directories where it is not
    /// configured.
    fn find(&self, path: &String) -> (at: usize)
        requires
            self.wf(),
        ensures
            at == self.position(path@),
            at <= self.dirconfs@.len(),
            at < self.dirconfs@.len() ==> self.dirconfs@[at as int].path@ == path@,
            at == self.dirconfs@.len() ==> forall|i: int|
                0 <= i < self.dirconfs@.len() ==> self.dirconfs@[i].path@ != path@,
    {
        let mut at: usize = 0;
        while at < self.dirconfs.len()
            invariant
                self.wf(),
                at <= self.dirconfs@.len(),
                forall|i: int| 0 <= i < at ==> self.dirconfs@[i].path@ != path@,
            decreases self.dirconfs@.len() - at,
        {
            if self.dirconfs[at].path == *path {
                proof {
                    let chosen = self.position(path@);
                    assert(self.dirconfs@[at as int].path@ == path@);
                    assert(self.dirconfs@[chosen].path@ == path@);
                    assert(chosen == at);
                }
                return at;
            }
            at += 1;
        }
        at
    }

    /// The entry of `path`, if it is configured.
    pub fn get(&self, path: &String) -> (dir: Option<&DirConf>)
        requires
            self.wf(),
        ensures
            self.watches(path@) ==> dir == Some(&self.dirconfs@[self.position(path@)]) && dir->0.path@
                == path@,
            !self.watches(path@) ==> dir is None,
    {
        let at = self.find(path);
        if at < self.dirconfs.len() {
            Some(&self.dirconfs[at])
        } else {
            None
        }
    }

    /// Configures `dir`: in the place of the entry with the same path where
    /// there is one, otherwise as a new entry after the others.
    pub fn insert(&mut self, dir: DirConf)
        requires
            old(self).wf(),
        ensures
            final(self).wf(),
            final(self).pipe_name == old(self).pipe_name,
            final(self).logfile == old(self).logfile,
            final(self).nopipe == old(self).nopipe,
            final(self).position(dir.path@) == old(self).position(dir.path@),
            old(self).watches(dir.path@) ==> final(self).dirconfs@ == old(self).dirconfs@.update(
                old(self).position(dir.path@),
                dir,
            ),
            !old(self).watches(dir.path@) ==> final(self).dirconfs@ == old(self).dirconfs@.push(dir),
    {
        let at = self.find(&dir.path);
        if at < self.dirconfs.len() {
            self.dirconfs[at] = dir;
        } else {
            self.dirconfs.push(dir);
        }
        assert(self.dirconfs@[at as int].path@ == dir.path@);
    }
}

impl Default for Config {
    /// The settings where no file says otherwise.
    fn default() -> (config: Config)
        ensures
            config.pipe_name@ == "DirMon"@,
            config.logfile@ == ".\\dirmon.log"@,
            !config.nopipe,
            config.dirconfs@.len() == 0,
            config.wf(),
    {
        Config {
            pipe_name: String::from_str("DirMon"),
            logfile: String::from_str(".\\dirmon.log"),
            nopipe: false,
            dirconfs: Vec::new(),
        }
    }
}

} // verus!
