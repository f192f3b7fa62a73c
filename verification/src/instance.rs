//! One installed copy of the game.
use vstd::prelude::*;
use crate::config::copy_opt_string;

verus! {

#[derive(Debug, Clone)]
pub struct Instance {
    /// Display name.
    pub name: String,
    /// Folder name under the instances directory.
    pub id: String,
    pub version: String,
    pub loader: String,
    pub max_memory: u32,
    pub java_path: String,
    pub played_last: Option<String>,
}

#[verifier::ext_equal]
pub struct InstanceView {
    pub name: Seq<char>,
    pub id: Seq<char>,
    pub version: Seq<char>,
    pub loader: Seq<char>,
    pub max_memory: u32,
    pub java_path: Seq<char>,
    pub played_last: Option<Seq<char>>,
}

impl View for Instance {
    type V = InstanceView;

    open spec fn view(&self) -> InstanceView {
        InstanceView {
            name: self.name@,
            id: self.id@,
            version: self.version@,
            loader: self.loader@,
            max_memory: self.max_memory,
            java_path: self.java_path@,
            played_last: crate::config::opt_view(self.played_last),
        }
    }
}

pub open spec fn instance_views(s: Seq<Instance>) -> Seq<InstanceView> {
    s.map_values(|i: Instance| i@)
}

impl Instance {
    pub fn duplicate(&self) -> (r: Self)
        ensures
            r == *self,
    {
        Instance {
            name: self.name.clone(),
            id: self.id.clone(),
            version: self.version.clone(),
            loader: self.loader.clone(),
            max_memory: self.max_memory,
            java_path: self.java_path.clone(),
            played_last: copy_opt_string(&self.played_last),
        }
    }
}

} // verus!
