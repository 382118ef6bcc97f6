//! Which command opens which kind of file.

use vstd::prelude::*;
use crate::text::split_trimmed;
use crate::text::trimmed_pieces;

verus! {

/// The command that opens a file when nothing else is configured.
pub const DEFAULT_OPENER: &'static str = "xdg-open";

/// The configured command for an extension: the one that was configured
/// last, if any was.
pub open spec fn lookup(entries: Seq<(String, String)>, extension: Seq<char>) -> Option<Seq<char>>
    decreases entries.len(),
{
    if entries.len() == 0 {
        None
    } else if entries.last().0@ == extension {
        Some(entries.last().1@)
    } else {
        lookup(entries.drop_last(), extension)
    }
}

/// The views of pairs of strings.
pub open spec fn pair_views(pairs: Seq<(String, String)>) -> Seq<(Seq<char>, Seq<char>)> {
    pairs.map_values(|p: (String, String)| (p.0@, p.1@))
}

/// The same command for each of the extensions.
pub open spec fn each_with(extensions: Seq<Seq<char>>, command: Seq<char>) -> Seq<
    (Seq<char>, Seq<char>),
> {
    extensions.map_values(|e: Seq<char>| (e, command))
}

/// The configuration as it is used: a line of the configuration names one
/// or more extensions, with commas between them, and the command that opens
/// them; here every extension has its command.
pub open spec fn expanded(raw: Seq<(Seq<char>, Seq<char>)>) -> Seq<(Seq<char>, Seq<char>)>
    decreases raw.len(),
{
    if raw.len() == 0 {
        Seq::empty()
    } else {
        expanded(raw.drop_last()) + each_with(trimmed_pieces(raw.last().0, ','), raw.last().1)
    }
}

/// The commands that open files, by file extension.
#[derive(Debug)]
pub struct OpenMethods {
    /// Pairs of an extension and its command, in the order in which they
    /// were configured.
    pub entries: Vec<(String, String)>,
}

impl OpenMethods {
    /// No command is configured.
    pub fn new() -> (r: OpenMethods)
        ensures
            r.entries@.len() == 0,
    {
        OpenMethods { entries: Vec::new() }
    }

    /// Configures `command` for `extension`, in place of an earlier command
    /// for it.
    pub fn insert(&mut self, extension: String, command: String)
        ensures
            final(self).entries@ == old(self).entries@.push((extension, command)),
    {
        self.entries.push((extension, command));
    }

    /// The command that opens a file with the given extension: the
    /// configured one, or the default opener.
    pub open spec fn command_for(&self, extension: Option<Seq<char>>) -> Seq<char> {
        match extension {
            None => DEFAULT_OPENER@,
            Some(e) => match lookup(self.entries@, e) {
                Some(command) => command,
                None => DEFAULT_OPENER@,
            },
        }
    }

    /// The configured command for `extension`.
    pub fn get(&self, extension: &String) -> (r: Option<&String>)
        ensures
            r.deep_view() == lookup(self.entries@, extension@),
    {
        let mut i: usize = self.entries.len();
        proof {
            assert(self.entries@.take(i as int) =~= self.entries@);
        }
        while i > 0
            invariant
                i <= self.entries.len(),
                lookup(self.entries@, extension@) == lookup(
                    self.entries@.take(i as int),
                    extension@,
                ),
            decreases i,
        {
            proof {
                let upto = self.entries@.take(i as int);
                assert(upto.last() == self.entries@[i - 1]);
                assert(upto.drop_last() =~= self.entries@.take(i - 1));
            }
            if self.entries[i - 1].0 == *extension {
                return Some(&self.entries[i - 1].1);
            }
            i -= 1;
        }
        None
    }

    /// The command that opens a file with the given extension.
    pub fn open_command(&self, extension: &Option<String>) -> (r: String)
        ensures
            r@ == self.command_for(extension.deep_view()),
    {
        match extension {
            None => DEFAULT_OPENER.to_string(),
            Some(e) => match self.get(e) {
                Some(command) => command.clone(),
                None => DEFAULT_OPENER.to_string(),
            },
        }
    }

    /// The commands of a configuration.  Each line of `raw` holds a list of
    /// extensions, separated by commas, and a command; where an extension
    /// stands in several lines the last line counts.
    pub fn from_raw(raw: Vec<(String, String)>) -> (r: OpenMethods)
        ensures
            pair_views(r.entries@) == expanded(pair_views(raw@)),
    {
        let mut entries: Vec<(String, String)> = Vec::new();
        let mut i: usize = 0;
        proof {
            assert(pair_views(raw@).take(0) =~= Seq::empty());
            assert(pair_views(entries@) =~= Seq::empty());
        }
        while i < raw.len()
            invariant
                i <= raw.len(),
                pair_views(entries@) == expanded(pair_views(raw@).take(i as int)),
            decreases raw.len() - i,
        {
            let extensions = split_trimmed(raw[i].0.as_str(), ',');
            let ghost before = pair_views(entries@);
            let ghost command = raw@[i as int].1@;
            let ghost names = extensions.deep_view();
            let mut k: usize = 0;
            proof {
                let upto = pair_views(raw@).take(i + 1);
                assert(upto.drop_last() =~= pair_views(raw@).take(i as int));
                assert(upto.last() == (raw@[i as int].0@, command));
                assert(before + each_with(names.take(0), command) =~= before);
            }
            while k < extensions.len()
                invariant
                    k <= extensions.len(),
                    i < raw.len(),
                    command == raw@[i as int].1@,
                    names == extensions.deep_view(),
                    pair_views(entries@) == before + each_with(names.take(k as int), command),
                decreases extensions.len() - k,
            {
                let ghost sofar = pair_views(entries@);
                entries.push((extensions[k].clone(), raw[i].1.clone()));
                proof {
                    assert(pair_views(entries@) =~= sofar.push((names[k as int], command)));
                    assert(each_with(names.take(k + 1), command) =~= each_with(
                        names.take(k as int),
                        command,
                    ).push((names[k as int], command)));
                }
                k += 1;
            }
            proof {
                assert(names.take(extensions.len() as int) =~= names);
            }
            i += 1;
        }
        proof {
            assert(pair_views(raw@).take(raw.len() as int) =~= pair_views(raw@));
        }
        OpenMethods { entries }
    }
}

} // verus!
