use vstd::prelude::*;
use crate::hotkey::Modifiers;
use crate::text::{decimal, digit_char, usize_to_string};
use crate::ffmpeg::{join_path, path_join};

verus! {

/// The names of the modifiers held, in the order ALT, CTRL, SHIFT, CMD.
pub open spec fn modifier_names(m: Modifiers) -> Seq<Seq<char>> {
    (if m.alt { seq!["ALT"@] } else { seq![] })
        + (if m.ctrl { seq!["CTRL"@] } else { seq![] })
        + (if m.shift { seq!["SHIFT"@] } else { seq![] })
        + (if m.mac_cmd { seq!["CMD"@] } else { seq![] })
}

/// The parts joined by `sep`.
pub open spec fn join(parts: Seq<Seq<char>>, sep: Seq<char>) -> Seq<char>
    decreases parts.len(),
{
    if parts.len() == 0 {
        seq![]
    } else if parts.len() == 1 {
        parts[0]
    } else {
        join(parts.drop_last(), sep) + sep + parts.last()
    }
}

/// The modifiers held, as shown next to a key: `CTRL + SHIFT`.
pub fn modifiers_to_string(modifiers: &Modifiers) -> (s: String)
    ensures
        s@ == join(modifier_names(*modifiers), " + "@),
{
    let mut names: Vec<&'static str> = Vec::new();
    if modifiers.alt {
        names.push("ALT");
    }
    if modifiers.ctrl {
        names.push("CTRL");
    }
    if modifiers.shift {
        names.push("SHIFT");
    }
    if modifiers.mac_cmd {
        names.push("CMD");
    }
    let ghost parts = names@.map_values(|s: &str| s@);
    proof {
        assert(parts =~= modifier_names(*modifiers));
    }
    let mut s = String::new();
    let n = names.len();
    let mut i: usize = 0;
    while i < n
        invariant
            0 <= i <= n,
            n == names@.len(),
            parts == names@.map_values(|s: &str| s@),
            s@ == join(parts.take(i as int), " + "@),
        decreases n - i,
    {
        if i > 0 {
            s.append(" + ");
        }
        s.append(names[i]);
        proof {
            assert(parts.take(i + 1).drop_last() =~= parts.take(i as int));
            assert(parts.take(i + 1).last() == names@[i as int]@);
            if i == 0 {
                assert(parts.take(1)[0] == names@[0]@);
            }
        }
        i = i + 1;
    }
    proof {
        assert(parts.take(n as int) =~= parts);
    }
    s
}

/// The name (without extension) tried at a given step of the search for a
/// free file name: the name itself, then `name_1`, `name_2`, ...
pub open spec fn fallback_stem(filename: Seq<char>, iteration: nat) -> Seq<char> {
    if iteration == 0 {
        filename
    } else {
        filename + "_"@ + decimal(iteration)
    }
}

/// The file name tried at a given step: the stem and the extension.
pub open spec fn fallback_file(filename: Seq<char>, extension: Seq<char>, iteration: nat) -> Seq<char> {
    fallback_stem(filename, iteration) + "."@ + extension
}

/// The candidate of a step of the search for a free file name: the file
/// name to look for and the name (without extension) to use where it is
/// free.
pub fn fallback_candidate(filename: &str, extension: &str, iteration: usize) -> (r: (String, String))
    ensures
        r.0@ == fallback_file(filename@, extension@, iteration as nat),
        r.1@ == fallback_stem(filename@, iteration as nat),
{
    let mut stem = String::from_str(filename);
    if iteration != 0 {
        stem.append("_");
        let digits = usize_to_string(iteration);
        stem.append(digits.as_str());
    }
    let mut file = stem.clone();
    file.append(".");
    file.append(extension);
    (file, stem)
}

/// One step of the search for a free file name, given whether the step's
/// file is taken: a free file (or the last step a `usize` can count) ends the
/// search with the step's name; a taken one goes on to the next step.
pub fn fallback_step(filename: &str, iteration: usize, taken: bool) -> (r: Option<String>)
    ensures
        (!taken || iteration == usize::MAX) ==> (r matches Some(s) && s@ == fallback_stem(filename@, iteration as nat)),
        (taken && iteration < usize::MAX) ==> r is None,
{
    if taken && iteration < usize::MAX {
        None
    } else {
        let (_, stem) = fallback_candidate(filename, "", iteration);
        Some(stem)
    }
}

/// The path looked at in step `i` of the search: the step's file name in
/// the directory.
pub open spec fn candidate_path(dir: Seq<char>, filename: Seq<char>, extension: Seq<char>, i: nat) -> Seq<char> {
    path_join(dir, fallback_file(filename, extension, i))
}

/// A call of the test `taken` on `path` answered `answer`.
pub open spec fn answered<F: Fn(&str) -> bool>(taken: F, path: Seq<char>, answer: bool) -> bool {
    exists|p: &str| p@ == path && #[trigger] call_ensures(taken, (p,), answer)
}

/// Step `k` is where a search from step `from` stops: the test found every
/// earlier file taken and this one free (the last step a `usize` can count
/// stops the search whatever the answer).
pub open spec fn stops_at<F: Fn(&str) -> bool>(
    taken: F,
    dir: Seq<char>,
    filename: Seq<char>,
    extension: Seq<char>,
    from: nat,
    k: nat,
) -> bool {
    &&& from <= k <= usize::MAX
    &&& (k < usize::MAX ==> answered(taken, candidate_path(dir, filename, extension, k), false))
    &&& forall|j: nat| from <= j < k ==> answered(taken, #[trigger] candidate_path(dir, filename, extension, j), true)
}

/// Whether `path` names an existing regular file, by std's `Path::is_file`.
/// What is on disk decides, and may change from one call to the next, so
/// nothing is stated of the result.
#[verifier::external_body]
fn is_file(path: &str) -> (r: bool) {
    std::path::Path::new(path).is_file()
}

/// `name` is the first of `filename`, `filename_1`, ... for which std's
/// `Path::is_file`, asked in turn by the search, answered that its file with
/// `extension` in `dir` is not an existing file.
pub closed spec fn first_free_on_disk(dir: Seq<char>, filename: Seq<char>, extension: Seq<char>, name: Seq<char>) -> bool {
    exists|k: nat| stops_at(is_file, dir, filename, extension, 0, k) && name == fallback_stem(filename, k)
}

/// The first of `filename`, `filename_1`, `filename_2`, ... whose file with
/// `extension` is not an existing file in `dir_path` (without the extension).
pub fn fallback_filename(dir_path: &str, filename: &str, extension: &str) -> (r: String)
    ensures
        first_free_on_disk(dir_path@, filename@, extension@, r@),
{
    let r = _fallback_filename(dir_path, filename, extension, 0, &is_file);
    r
}

/// The search from step `iteration` on, asking `taken` whether each file is
/// taken: the first step whose file `taken` finds free gives the name.
fn _fallback_filename<F: Fn(&str) -> bool>(
    dir_path: &str,
    filename: &str,
    extension: &str,
    iteration: usize,
    taken: &F,
) -> (r: String)
    requires
        forall|p: &str| call_requires(*taken, (p,)),
    ensures
        exists|k: nat| stops_at(*taken, dir_path@, filename@, extension@, iteration as nat, k)
            && r@ == fallback_stem(filename@, k),
    decreases usize::MAX - iteration,
{
    let (file, _) = fallback_candidate(filename, extension, iteration);
    let file_path = join_path(dir_path, file.as_str());
    let p: &str = file_path.as_str();
    let is_taken = taken(p);
    proof {
        assert(p@ == candidate_path(dir_path@, filename@, extension@, iteration as nat));
        assert(answered(*taken, candidate_path(dir_path@, filename@, extension@, iteration as nat), is_taken));
    }
    match fallback_step(filename, iteration, is_taken) {
        Some(name) => {
            proof {
                assert(stops_at(*taken, dir_path@, filename@, extension@, iteration as nat, iteration as nat));
            }
            name
        },
        None => {
            let r = _fallback_filename(dir_path, filename, extension, iteration + 1, taken);
            proof {
                let k = choose|k: nat| stops_at(*taken, dir_path@, filename@, extension@, (iteration + 1) as nat, k)
                    && r@ == fallback_stem(filename@, k);
                assert forall|j: nat| iteration as nat <= j < k implies answered(*taken, #[trigger] candidate_path(dir_path@, filename@, extension@, j), true) by {
                    if j > iteration {
                        assert((iteration + 1) as nat <= j < k);
                    }
                }
                assert(stops_at(*taken, dir_path@, filename@, extension@, iteration as nat, k));
            }
            r
        },
    }
}

proof fn lemma_digit_char_injective(a: nat, b: nat)
    requires
        a < 10,
        b < 10,
        digit_char(a) == digit_char(b),
    ensures
        a == b,
{
}

proof fn lemma_decimal_len(n: nat)
    ensures
        decimal(n).len() >= 1,
        n < 10 <==> decimal(n).len() == 1,
    decreases n,
{
    if n >= 10 {
        lemma_decimal_len(n / 10);
    }
}

/// Different numbers have different decimal representations.
pub proof fn lemma_decimal_injective(a: nat, b: nat)
    requires
        decimal(a) == decimal(b),
    ensures
        a == b,
    decreases a,
{
    lemma_decimal_len(a);
    lemma_decimal_len(b);
    if a < 10 {
        assert(decimal(a)[0] == digit_char(a));
        assert(decimal(b)[0] == digit_char(b));
        lemma_digit_char_injective(a, b);
    } else {
        assert(decimal(a).last() == digit_char(a % 10));
        assert(decimal(b).last() == digit_char(b % 10));
        lemma_digit_char_injective(a % 10, b % 10);
        assert(decimal(a).drop_last() =~= decimal(a / 10));
        assert(decimal(b).drop_last() =~= decimal(b / 10));
        lemma_decimal_injective(a / 10, b / 10);
    }
}

/// Each step of the search for a free file name tries a name of its own, so
/// no name is tried twice.
pub proof fn law_fallback_names_differ(filename: Seq<char>, i: nat, j: nat)
    requires
        i != j,
    ensures
        fallback_stem(filename, i) != fallback_stem(filename, j),
{
    reveal_strlit("_");
    if i == 0 {
        lemma_decimal_len(j);
        assert(fallback_stem(filename, j).len() > filename.len());
    } else if j == 0 {
        lemma_decimal_len(i);
        assert(fallback_stem(filename, i).len() > filename.len());
    } else {
        let p = filename + "_"@;
        if fallback_stem(filename, i) == fallback_stem(filename, j) {
            assert(fallback_stem(filename, i).subrange(p.len() as int, fallback_stem(filename, i).len() as int) =~= decimal(i));
            assert(fallback_stem(filename, j).subrange(p.len() as int, fallback_stem(filename, j).len() as int) =~= decimal(j));
            lemma_decimal_injective(i, j);
        }
    }
}

} // verus!
