//! Where the signer keeps its files, and what it listens on.

use vstd::prelude::*;
use crate::network::{Network, NetworkSpecific};

verus! {

/// Directory, under the platform's configuration directory, that holds the signer's files.
pub const PATH_IDENTIFIER: &'static str = "manta-signer";

/// Default listening address of the service.
pub const DEFAULT_SERVICE_URL: &'static str = "127.0.0.1:29987";

/// A file system path, as the sequence of its components.
#[derive(Debug)]
pub struct FilePath {
    /// Components, from the root down
    pub parts: Vec<String>,
}

impl View for FilePath {
    type V = Seq<Seq<char>>;

    open spec fn view(&self) -> Seq<Seq<char>> {
        self.parts@.map_values(|s: String| s@)
    }
}

impl FilePath {
    /// Builds a path from its components.
    pub fn new(parts: Vec<String>) -> (r: Self)
        ensures
            r.parts@ == parts@,
    {
        FilePath { parts }
    }

    /// A copy of `self`.
    pub fn duplicate(&self) -> (r: Self)
        ensures
            r@ == self@,
    {
        let mut parts: Vec<String> = Vec::new();
        let mut i: usize = 0;
        while i < self.parts.len()
            invariant
                i <= self.parts@.len(),
                parts@.len() == i,
                forall|j: int| 0 <= j < i ==> #[trigger] parts@[j]@ == self.parts@[j]@,
            decreases self.parts@.len() - i,
        {
            parts.push(self.parts[i].clone());
            i = i + 1;
        }
        let r = FilePath { parts };
        assert(r@ =~= self@);
        r
    }

    /// `self` with `name` appended as its last component.
    pub fn join(&self, name: &str) -> (r: Self)
        ensures
            r@ == self@.push(name@),
    {
        let mut r = self.duplicate();
        r.parts.push(name.to_owned());
        assert(r@ =~= self@.push(name@));
        r
    }

    /// Whether `self` and `other` are the same path.
    pub fn same_as(&self, other: &FilePath) -> (r: bool)
        ensures
            r == (self@ == other@),
    {
        if self.parts.len() != other.parts.len() {
            proof {
                assert(self@.len() != other@.len());
            }
            return false;
        }
        let mut i: usize = 0;
        while i < self.parts.len()
            invariant
                i <= self.parts@.len(),
                self.parts@.len() == other.parts@.len(),
                forall|j: int| 0 <= j < i ==> #[trigger] self.parts@[j]@ == other.parts@[j]@,
            decreases self.parts@.len() - i,
        {
            if self.parts[i] != other.parts[i] {
                proof {
                    assert(self@[i as int] != other@[i as int]);
                }
                return false;
            }
            i = i + 1;
        }
        proof {
            assert(self@ =~= other@);
        }
        true
    }

    /// The path without its last component, or `None` for the empty path.
    pub fn parent(&self) -> (r: Option<Self>)
        ensures
            r is Some <==> self@.len() > 0,
            r is Some ==> r->0@ == self@.drop_last(),
    {
        if self.parts.len() == 0 {
            None
        } else {
            let mut r = self.duplicate();
            r.parts.pop();
            assert(r@ =~= self@.drop_last());
            Some(r)
        }
    }
}

/// Appends the signer's directory and then `name` to `path`, if there is a path.
pub fn file(path: Option<FilePath>, name: &str) -> (r: Option<FilePath>)
    ensures
        r is Some <==> path is Some,
        r is Some ==> r->0@ == path->0@.push(PATH_IDENTIFIER@).push(name@),
{
    match path {
        Some(p) => Some(p.join(PATH_IDENTIFIER).join(name)),
        None => None,
    }
}

/// Configuration of the signer.
#[derive(Debug)]
pub struct Config {
    /// State file of each network
    pub data_path: NetworkSpecific<FilePath>,
    /// Backup of the state file of each network, present while a save is under way
    pub backup_data_path: NetworkSpecific<FilePath>,
    /// Address the service listens on
    pub service_url: String,
    /// Origins allowed to send requests; an empty list allows any origin
    pub origin_urls: Vec<String>,
    /// Whether the hosting shell can restart the whole process
    pub can_app_restart: bool,
}

/// Whether each network's state file exists.
pub type DataExistenceResponse = NetworkSpecific<bool>;

impl Config {
    /// The paths are usable: every state file has a parent directory and
    /// differs from its backup.
    pub open spec fn wf(&self) -> bool {
        forall|n: Network| #[trigger] self.data_path.at(n)@.len() > 0
            && self.data_path.at(n)@ != self.backup_data_path.at(n)@
    }

    /// Whether the paths are usable.
    pub fn is_wf(&self) -> (r: bool)
        ensures
            r == self.wf(),
    {
        let r = self.data_path.dolphin.parts.len() > 0
            && self.data_path.calamari.parts.len() > 0
            && self.data_path.manta.parts.len() > 0
            && !self.data_path.dolphin.same_as(&self.backup_data_path.dolphin)
            && !self.data_path.calamari.same_as(&self.backup_data_path.calamari)
            && !self.data_path.manta.same_as(&self.backup_data_path.manta);
        proof {
            if r {
                assert forall|n: Network| #[trigger] self.data_path.at(n)@.len() > 0
                    && self.data_path.at(n)@ != self.backup_data_path.at(n)@ by {
                    match n {
                        Network::Dolphin => {},
                        Network::Calamari => {},
                        Network::Manta => {},
                    }
                }
            } else {
                assert(!(self.data_path.at(Network::Dolphin)@.len() > 0
                    && self.data_path.at(Network::Dolphin)@ != self.backup_data_path.at(Network::Dolphin)@)
                    || !(self.data_path.at(Network::Calamari)@.len() > 0
                    && self.data_path.at(Network::Calamari)@ != self.backup_data_path.at(Network::Calamari)@)
                    || !(self.data_path.at(Network::Manta)@.len() > 0
                    && self.data_path.at(Network::Manta)@ != self.backup_data_path.at(Network::Manta)@));
            }
        }
        r
    }

    /// The default configuration under the platform configuration directory
    /// `config_dir`; `None` when the platform has none.
    pub fn try_default(config_dir: Option<FilePath>) -> (r: Option<Self>)
        ensures
            r is Some <==> config_dir is Some,
            r is Some ==> {
                let c = r->0;
                let d = config_dir->0@.push(PATH_IDENTIFIER@);
                &&& c.wf()
                &&& c.data_path.dolphin@ == d.push("storage-dolphin.dat"@)
                &&& c.data_path.calamari@ == d.push("storage-calamari.dat"@)
                &&& c.data_path.manta@ == d.push("storage-manta.dat"@)
                &&& c.backup_data_path.dolphin@ == d.push("storage-dolphin.backup"@)
                &&& c.backup_data_path.calamari@ == d.push("storage-calamari.backup"@)
                &&& c.backup_data_path.manta@ == d.push("storage-manta.backup"@)
                &&& c.service_url@ == DEFAULT_SERVICE_URL@
                &&& c.origin_urls@.len() == 2
                &&& c.origin_urls@[0]@ == "https://app.manta.network"@
                &&& c.origin_urls@[1]@ == "https://app.dolphin.manta.network"@
                &&& c.can_app_restart
            },
    {
        let dir = match config_dir {
            Some(d) => d,
            None => return None,
        };
        let data_path = NetworkSpecific::new(
            dir.join(PATH_IDENTIFIER).join("storage-dolphin.dat"),
            dir.join(PATH_IDENTIFIER).join("storage-calamari.dat"),
            dir.join(PATH_IDENTIFIER).join("storage-manta.dat"),
        );
        let backup_data_path = NetworkSpecific::new(
            dir.join(PATH_IDENTIFIER).join("storage-dolphin.backup"),
            dir.join(PATH_IDENTIFIER).join("storage-calamari.backup"),
            dir.join(PATH_IDENTIFIER).join("storage-manta.backup"),
        );
        let origin_urls = vec![
            "https://app.manta.network".to_owned(),
            "https://app.dolphin.manta.network".to_owned(),
        ];
        proof {
            reveal_strlit("storage-dolphin.dat");
            reveal_strlit("storage-calamari.dat");
            reveal_strlit("storage-manta.dat");
            reveal_strlit("storage-dolphin.backup");
            reveal_strlit("storage-calamari.backup");
            reveal_strlit("storage-manta.backup");
            assert("storage-dolphin.dat"@.len() != "storage-dolphin.backup"@.len());
            assert("storage-calamari.dat"@.len() != "storage-calamari.backup"@.len());
            assert("storage-manta.dat"@.len() != "storage-manta.backup"@.len());
            assert(data_path.dolphin@.last() != backup_data_path.dolphin@.last());
            assert(data_path.dolphin@.len() > 0 && data_path.calamari@.len() > 0 && data_path.manta@.len() > 0);
            assert(data_path.calamari@.last() != backup_data_path.calamari@.last());
            assert(data_path.manta@.last() != backup_data_path.manta@.last());
        }
        Some(Config {
            data_path,
            backup_data_path,
            service_url: DEFAULT_SERVICE_URL.to_owned(),
            origin_urls,
            can_app_restart: true,
        })
    }

    /// The directory holding the state files.
    pub fn data_directory(&self) -> (r: FilePath)
        requires
            self.wf(),
        ensures
            r@ == self.data_path.dolphin@.drop_last(),
    {
        proof {
            assert(self.data_path.at(Network::Dolphin)@.len() > 0);
        }
        match self.data_path.dolphin.parent() {
            Some(p) => p,
            None => {
                assert(false);
                FilePath::new(Vec::new())
            },
        }
    }

    /// Whether a request from `origin` may be served: any origin when the list
    /// is empty, else exactly the listed ones.
    pub fn allows_origin(&self, origin: &String) -> (r: bool)
        ensures
            r == (self.origin_urls@.len() == 0
                || exists|i: int| 0 <= i < self.origin_urls@.len() && #[trigger] self.origin_urls@[i]@ == origin@),
    {
        if self.origin_urls.len() == 0 {
            return true;
        }
        let mut i: usize = 0;
        while i < self.origin_urls.len()
            invariant
                i <= self.origin_urls@.len(),
                forall|j: int| 0 <= j < i ==> #[trigger] self.origin_urls@[j]@ != origin@,
            decreases self.origin_urls@.len() - i,
        {
            if self.origin_urls[i] == *origin {
                return true;
            }
            i = i + 1;
        }
        false
    }
}

impl DataExistenceResponse {
    /// Whether at least one network's state file exists.
    pub fn any(&self) -> (r: bool)
        ensures
            r == (self.dolphin || self.calamari || self.manta),
    {
        self.dolphin || self.calamari || self.manta
    }
}

} // verus!
