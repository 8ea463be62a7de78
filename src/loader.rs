use vstd::prelude::*;

use crate::pattern::{pattern_matches, regex_compiles, regex_matches};

verus! {

/// Which option a pattern came from.
#[derive(Clone, Copy, Debug, PartialEq, Eq)]
pub enum PatternKind {
    /// Paths that match are left out.
    Filter,
    /// Only paths that match are kept.
    Only,
}

/// A pattern that does not compile, and the option it came from.
#[derive(Debug)]
pub struct PatternError {
    pub kind: PatternKind,
    pub pattern: String,
}

/// Chooses which files to load: paths matching any exclusion pattern are
/// left out, paths must match every inclusion pattern, and at most a given
/// number of images are loaded.
pub struct ImageLoader {
    must_not_match: Vec<String>,
    must_match: Vec<String>,
    max_count: Option<usize>,
}

/// The loader's settings as plain values.
pub struct LoaderState {
    pub must_not_match: Seq<Seq<char>>,
    pub must_match: Seq<Seq<char>>,
    pub max_count: Option<usize>,
}

pub open spec fn texts(v: Seq<String>) -> Seq<Seq<char>> {
    v.map_values(|s: String| s@)
}

impl View for ImageLoader {
    type V = LoaderState;

    closed spec fn view(&self) -> LoaderState {
        LoaderState {
            must_not_match: texts(self.must_not_match@),
            must_match: texts(self.must_match@),
            max_count: self.max_count,
        }
    }
}

/// Kept by the patterns: `only_hits[i]` says whether the path matched the
/// `i`-th inclusion pattern, `filter_hits[j]` the `j`-th exclusion pattern.
pub open spec fn admitted_by(only_hits: Seq<bool>, filter_hits: Seq<bool>) -> bool {
    &&& forall|i: int| 0 <= i < only_hits.len() ==> only_hits[i]
    &&& forall|j: int| 0 <= j < filter_hits.len() ==> !filter_hits[j]
}

/// A path is kept when it matched every inclusion pattern and no exclusion
/// pattern.
pub fn admitted(only_hits: &Vec<bool>, filter_hits: &Vec<bool>) -> (r: bool)
    ensures
        r == admitted_by(only_hits@, filter_hits@),
{
    let mut i: usize = 0;
    while i < only_hits.len()
        invariant
            0 <= i <= only_hits@.len(),
            forall|k: int| 0 <= k < i ==> only_hits@[k],
        decreases only_hits@.len() - i,
    {
        if !only_hits[i] {
            return false;
        }
        i = i + 1;
    }
    let mut j: usize = 0;
    while j < filter_hits.len()
        invariant
            0 <= j <= filter_hits@.len(),
            forall|k: int| 0 <= k < only_hits@.len() ==> only_hits@[k],
            forall|k: int| 0 <= k < j ==> !filter_hits@[k],
        decreases filter_hits@.len() - j,
    {
        if filter_hits[j] {
            return false;
        }
        j = j + 1;
    }
    true
}

/// What each of `patterns` says of `path`: whether it matches.
pub open spec fn hits(patterns: Seq<Seq<char>>, path: Seq<char>) -> Seq<bool> {
    patterns.map_values(|p: Seq<char>| regex_matches(p, path))
}

/// `path` matches every inclusion pattern in `only` and no exclusion pattern
/// in `filter`.
pub open spec fn admits_path(only: Seq<Seq<char>>, filter: Seq<Seq<char>>, path: Seq<char>) -> bool {
    admitted_by(hits(only, path), hits(filter, path))
}

/// The loader's patterns, each known to compile.
#[derive(Debug)]
pub struct Filters {
    must_not_match: Vec<String>,
    must_match: Vec<String>,
}

impl Filters {
    #[verifier::type_invariant]
    spec fn all_compile(&self) -> bool {
        &&& forall|i: int|
            0 <= i < self.must_not_match@.len() ==> regex_compiles(#[trigger] self.must_not_match@[i]@)
        &&& forall|i: int|
            0 <= i < self.must_match@.len() ==> regex_compiles(#[trigger] self.must_match@[i]@)
    }

    /// The exclusion patterns.
    pub closed spec fn filter_patterns(&self) -> Seq<Seq<char>> {
        texts(self.must_not_match@)
    }

    /// The inclusion patterns.
    pub closed spec fn only_patterns(&self) -> Seq<Seq<char>> {
        texts(self.must_match@)
    }

    /// Whether `path` is kept: it matches every inclusion pattern and no
    /// exclusion pattern.
    pub fn admits(&self, path: &str) -> (r: bool)
        ensures
            r == admits_path(self.only_patterns(), self.filter_patterns(), path@),
    {
        proof {
            use_type_invariant(self);
        }
        let mut only_hits: Vec<bool> = Vec::new();
        let mut i: usize = 0;
        while i < self.must_match.len()
            invariant
                0 <= i <= self.must_match@.len(),
                only_hits@.len() == i,
                forall|k: int|
                    0 <= k < i ==> only_hits@[k] == regex_matches(self.must_match@[k]@, path@),
                forall|k: int|
                    0 <= k < self.must_match@.len() ==> regex_compiles(#[trigger] self.must_match@[k]@),
            decreases self.must_match@.len() - i,
        {
            let hit = pattern_matches(self.must_match[i].as_str(), path).unwrap();
            only_hits.push(hit);
            i = i + 1;
        }
        let mut filter_hits: Vec<bool> = Vec::new();
        let mut j: usize = 0;
        while j < self.must_not_match.len()
            invariant
                0 <= j <= self.must_not_match@.len(),
                filter_hits@.len() == j,
                forall|k: int|
                    0 <= k < j ==> filter_hits@[k] == regex_matches(self.must_not_match@[k]@, path@),
                forall|k: int|
                    0 <= k < self.must_not_match@.len() ==> regex_compiles(
                        #[trigger] self.must_not_match@[k]@,
                    ),
            decreases self.must_not_match@.len() - j,
        {
            let hit = pattern_matches(self.must_not_match[j].as_str(), path).unwrap();
            filter_hits.push(hit);
            j = j + 1;
        }
        assert(only_hits@ =~= hits(self.only_patterns(), path@));
        assert(filter_hits@ =~= hits(self.filter_patterns(), path@));
        admitted(&only_hits, &filter_hits)
    }
}

/// Checks the patterns in order and keeps them; the first that does not
/// compile is the error.
fn compile_all(patterns: &Vec<String>, kind: PatternKind) -> (r: Result<Vec<String>, PatternError>)
    ensures
        match r {
            Ok(v) => {
                &&& v@ == patterns@
                &&& forall|i: int| 0 <= i < patterns@.len() ==> regex_compiles(#[trigger] patterns@[i]@)
            },
            Err(e) => exists|i: int|
                {
                    &&& 0 <= i < patterns@.len()
                    &&& e.kind == kind
                    &&& e.pattern@ == patterns@[i]@
                    &&& !regex_compiles(patterns@[i]@)
                    &&& forall|k: int| 0 <= k < i ==> regex_compiles(#[trigger] patterns@[k]@)
                },
        },
{
    let mut checked: Vec<String> = Vec::new();
    let mut i: usize = 0;
    while i < patterns.len()
        invariant
            0 <= i <= patterns@.len(),
            checked@ == patterns@.subrange(0, i as int),
            forall|k: int| 0 <= k < i ==> regex_compiles(#[trigger] patterns@[k]@),
        decreases patterns@.len() - i,
    {
        if pattern_matches(patterns[i].as_str(), "").is_none() {
            return Err(PatternError { kind, pattern: patterns[i].clone() });
        }
        checked.push(patterns[i].clone());
        assert(checked@ =~= patterns@.subrange(0, i + 1));
        i = i + 1;
    }
    assert(checked@ =~= patterns@);
    Ok(checked)
}

/// What the loader does with the next file.
#[derive(Clone, Copy, Debug, PartialEq, Eq, Structural)]
pub enum FileStep {
    /// The limit is reached: no more files are looked at.
    Stop,
    /// The file is passed over.
    Skip,
    /// The file is loaded.
    Load,
}

impl ImageLoader {
    /// A loader with no patterns and no limit.
    pub fn new() -> (r: ImageLoader)
        ensures
            r@.must_not_match.len() == 0,
            r@.must_match.len() == 0,
            r@.max_count is None,
    {
        ImageLoader { must_not_match: Vec::new(), must_match: Vec::new(), max_count: None }
    }

    /// Leaves out paths that match `filter`.
    pub fn filter(&mut self, filter: &str)
        ensures
            final(self)@.must_not_match == old(self)@.must_not_match.push(filter@),
            final(self)@.must_match == old(self)@.must_match,
            final(self)@.max_count == old(self)@.max_count,
    {
        self.must_not_match.push(filter.to_owned());
        proof {
            assert(texts(self.must_not_match@) =~= texts(old(self).must_not_match@).push(filter@));
        }
    }

    /// Keeps only paths that match `only`.
    pub fn only(&mut self, only: &str)
        ensures
            final(self)@.must_match == old(self)@.must_match.push(only@),
            final(self)@.must_not_match == old(self)@.must_not_match,
            final(self)@.max_count == old(self)@.max_count,
    {
        self.must_match.push(only.to_owned());
        proof {
            assert(texts(self.must_match@) =~= texts(old(self).must_match@).push(only@));
        }
    }

    /// Loads at most `max` images.
    pub fn max(&mut self, max: usize)
        ensures
            final(self)@.max_count == Some(max),
            final(self)@.must_match == old(self)@.must_match,
            final(self)@.must_not_match == old(self)@.must_not_match,
    {
        self.max_count = Some(max);
    }

    /// Another image may be loaded after `count` have been.
    pub open spec fn has_room_spec(&self, count: usize) -> bool {
        match self@.max_count {
            Some(m) => count < m,
            None => true,
        }
    }

    /// Another image may be loaded after `count` have been.
    pub fn has_room(&self, count: usize) -> (r: bool)
        ensures
            r == self.has_room_spec(count),
    {
        match self.max_count {
            Some(m) => count < m,
            None => true,
        }
    }

    /// The next file's fate, after `loaded` images have loaded: stop at the
    /// limit, pass over directories and paths the patterns reject, else load.
    pub fn file_step(&self, loaded: usize, is_dir: bool, admitted: bool) -> (r: FileStep)
        ensures
            r == (if !self.has_room_spec(loaded) {
                FileStep::Stop
            } else if is_dir || !admitted {
                FileStep::Skip
            } else {
                FileStep::Load
            }),
    {
        if !self.has_room(loaded) {
            FileStep::Stop
        } else if is_dir || !admitted {
            FileStep::Skip
        } else {
            FileStep::Load
        }
    }

    /// Compiles the exclusion patterns, then the inclusion patterns; the
    /// first pattern that does not compile is the error.
    pub fn compile_filters(&self) -> (r: Result<Filters, PatternError>)
        ensures
            match r {
                Ok(f) => {
                    &&& f.filter_patterns() == self@.must_not_match
                    &&& f.only_patterns() == self@.must_match
                    &&& forall|i: int|
                        0 <= i < self@.must_not_match.len() ==> regex_compiles(
                            #[trigger] self@.must_not_match[i],
                        )
                    &&& forall|i: int|
                        0 <= i < self@.must_match.len() ==> regex_compiles(
                            #[trigger] self@.must_match[i],
                        )
                },
                Err(e) => {
                    ||| exists|i: int|
                        {
                            &&& 0 <= i < self@.must_not_match.len()
                            &&& e.kind == PatternKind::Filter
                            &&& e.pattern@ == self@.must_not_match[i]
                            &&& !regex_compiles(self@.must_not_match[i])
                            &&& forall|k: int|
                                0 <= k < i ==> regex_compiles(#[trigger] self@.must_not_match[k])
                        }
                    ||| {
                        &&& forall|k: int|
                            0 <= k < self@.must_not_match.len() ==> regex_compiles(
                                #[trigger] self@.must_not_match[k],
                            )
                        &&& exists|i: int|
                            {
                                &&& 0 <= i < self@.must_match.len()
                                &&& e.kind == PatternKind::Only
                                &&& e.pattern@ == self@.must_match[i]
                                &&& !regex_compiles(self@.must_match[i])
                                &&& forall|k: int|
                                    0 <= k < i ==> regex_compiles(#[trigger] self@.must_match[k])
                            }
                    }
                },
            },
    {
        let must_not_match = match compile_all(&self.must_not_match, PatternKind::Filter) {
            Ok(v) => v,
            Err(e) => {
                proof {
                    let i = choose|i: int|
                        {
                            &&& 0 <= i < self.must_not_match@.len()
                            &&& e.kind == PatternKind::Filter
                            &&& e.pattern@ == self.must_not_match@[i]@
                            &&& !regex_compiles(self.must_not_match@[i]@)
                            &&& forall|k: int|
                                0 <= k < i ==> regex_compiles(#[trigger] self.must_not_match@[k]@)
                        };
                    assert(self@.must_not_match[i] == self.must_not_match@[i]@);
                    assert forall|k: int| 0 <= k < i implies regex_compiles(
                        #[trigger] self@.must_not_match[k],
                    ) by {
                        assert(self@.must_not_match[k] == self.must_not_match@[k]@);
                    }
                }
                return Err(e);
            },
        };
        let must_match = match compile_all(&self.must_match, PatternKind::Only) {
            Ok(v) => v,
            Err(e) => {
                proof {
                    let i = choose|i: int|
                        {
                            &&& 0 <= i < self.must_match@.len()
                            &&& e.kind == PatternKind::Only
                            &&& e.pattern@ == self.must_match@[i]@
                            &&& !regex_compiles(self.must_match@[i]@)
                            &&& forall|k: int|
                                0 <= k < i ==> regex_compiles(#[trigger] self.must_match@[k]@)
                        };
                    assert(self@.must_match[i] == self.must_match@[i]@);
                    assert forall|k: int| 0 <= k < i implies regex_compiles(
                        #[trigger] self@.must_match[k],
                    ) by {
                        assert(self@.must_match[k] == self.must_match@[k]@);
                    }
                }
                return Err(e);
            },
        };
        Ok(Filters { must_not_match, must_match })
    }
}

} // verus!
