use vstd::prelude::*;

verus! {

/// One relocation directive: files of `source_folder` whose name matches
/// `pattern` go to `destination_folder`.
#[derive(Clone, Debug)]
pub struct Rule {
    pub name: String,
    pub source_folder: String,
    pub pattern: String,
    pub destination_folder: String,
}

impl Rule {
    pub fn new(name: String, source_folder: String, pattern: String, destination_folder: String) -> (r: Rule)
        ensures
            r.name == name,
            r.source_folder == source_folder,
            r.pattern == pattern,
            r.destination_folder == destination_folder,
    {
        Rule { name, source_folder, pattern, destination_folder }
    }
}

/// The ordered rule list of one run.
#[derive(Clone, Debug)]
pub struct Config {
    pub rules: Vec<Rule>,
}

impl Config {
    pub fn new(rules: Vec<Rule>) -> (c: Config)
        ensures
            c.rules@ == rules@,
    {
        Config { rules }
    }
}

} // verus!
