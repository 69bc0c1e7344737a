use vstd::prelude::*;
use vstd::string::StrSliceExecFns;
use vstd::string::StringExecFns;

use crate::person::Gender;
use crate::random;

verus! {

/// A raw corpus line counts as a name when it is non-empty and is not a
/// comment line (one starting with '#').
pub open spec fn keeps_line(s: Seq<char>) -> bool {
    s.len() > 0 && s[0] != '#'
}

/// The character sequences of a sequence of strings.
pub open spec fn line_views(lines: Seq<String>) -> Seq<Seq<char>> {
    lines.map_values(|s: String| s@)
}

/// The names among a corpus's raw lines: in order, exactly the lines that
/// are non-empty and not comments.
pub open spec fn name_lines(lines: Seq<String>) -> Seq<Seq<char>> {
    line_views(lines).filter(|s: Seq<char>| keeps_line(s))
}

/// Draws random person names from two corpora of given names, one per
/// gender, supplied as raw text lines by the caller.
#[derive(Debug)]
pub struct NameGenerator {
    pub male_names: Vec<String>,
    pub female_names: Vec<String>,
}

impl NameGenerator {
    /// The name corpus consulted for a gender.
    pub open spec fn names_for(self, gender: Gender) -> Seq<Seq<char>> {
        match gender {
            Gender::Male => line_views(self.male_names@),
            Gender::Female => line_views(self.female_names@),
        }
    }

    /// Builds a generator from the raw lines of the two corpora, keeping of
    /// each exactly the lines that are names.
    pub fn new(male_lines: Vec<String>, female_lines: Vec<String>) -> (generator: NameGenerator)
        ensures
            line_views(generator.male_names@) == name_lines(male_lines@),
            line_views(generator.female_names@) == name_lines(female_lines@),
    {
        NameGenerator {
            male_names: Self::load_names(male_lines),
            female_names: Self::load_names(female_lines),
        }
    }

    /// Keeps, in order, exactly the lines of a corpus that are names:
    /// non-empty and not starting with '#'.
    pub fn load_names(lines: Vec<String>) -> (names: Vec<String>)
        ensures
            line_views(names@) == name_lines(lines@),
    {
        let mut names: Vec<String> = Vec::new();
        let mut i: usize = 0;
        while i < lines.len()
            invariant
                i <= lines.len(),
                line_views(names@) == name_lines(lines@.take(i as int)),
            decreases lines.len() - i,
        {
            let line = &lines[i];
            let len = line.as_str().unicode_len();
            let keep = if len == 0 {
                false
            } else {
                line.as_str().get_char(0) != '#'
            };
            proof {
                lemma_name_lines_take_one_more(lines@, i as int);
            }
            if keep {
                let copied = String::from_str(line.as_str());
                names.push(copied);
                proof {
                    assert(line_views(names@)
                        =~= name_lines(lines@.take(i as int)).push(lines@[i as int]@));
                }
            } else {
                proof {
                    assert(line_views(names@) =~= name_lines(lines@.take(i as int)));
                }
            }
            i = i + 1;
        }
        proof {
            assert(lines@.take(lines@.len() as int) =~= lines@);
        }
        names
    }

    /// Returns a name drawn at random from the corpus for `gender`, which
    /// must not be empty; only membership in that corpus is promised, since
    /// the draw is random.
    pub fn generate_name(self, gender: Gender) -> (name: String)
        requires
            self.names_for(gender).len() > 0,
        ensures
            self.names_for(gender).contains(name@),
    {
        let mut rng = random::fresh_rng();
        if gender == Gender::Male {
            random::pick_from(&mut rng, &self.male_names)
        } else {
            random::pick_from(&mut rng, &self.female_names)
        }
    }
}

/// Taking in one line more of a corpus appends its view to the kept names
/// when that line is a name, and changes nothing when it is not.
proof fn lemma_name_lines_take_one_more(lines: Seq<String>, i: int)
    requires
        0 <= i < lines.len(),
    ensures
        keeps_line(lines[i]@) ==> name_lines(lines.take(i + 1))
            == name_lines(lines.take(i)).push(lines[i]@),
        !keeps_line(lines[i]@) ==> name_lines(lines.take(i + 1)) == name_lines(lines.take(i)),
{
    let longer = line_views(lines.take(i + 1));
    assert(longer.drop_last() =~= line_views(lines.take(i)));
    assert(longer.last() == lines[i]@);
    reveal(Seq::filter);
}

} // verus!
