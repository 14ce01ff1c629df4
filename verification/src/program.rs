//! From a command line to the name of the program it runs, and from that
//! name to the input mode a pane running it starts in.

use crate::mode::InputMode;
use crate::text::{
    chars_of, find_char, is_space, lemma_find_char, lemma_skip_spaces, lemma_skip_spaces_is,
    lemma_skip_word, lemma_skip_word_is, scan_spaces, scan_to, scan_word, skip_spaces, skip_word,
    trim, trim_bounds,
};
use vstd::hash_set::StringHashSet;
use vstd::prelude::*;
use vstd::string::*;

verus! {

/// Where the `n`-th word of `s` starts, counting from 0, or `s.len()` where
/// `s` has no more than `n` words. A word is a longest run of characters
/// that are not white space.
pub open spec fn word_start(s: Seq<char>, n: nat) -> int
    decreases n,
{
    if n == 0 {
        skip_spaces(s, 0)
    } else {
        skip_spaces(s, skip_word(s, word_start(s, (n - 1) as nat)))
    }
}

/// The `n`-th word of `s`, counting from 0, where there is one.
pub open spec fn word(s: Seq<char>, n: nat) -> Option<Seq<char>> {
    let a = word_start(s, n);
    if 0 <= a < s.len() {
        Some(s.subrange(a, skip_word(s, a)))
    } else {
        None
    }
}

/// The index behind the last `/` of `w`, or 0 where it holds none.
pub open spec fn base_start(w: Seq<char>) -> int
    decreases w.len(),
{
    if w.len() == 0 {
        0
    } else if w.last() == '/' {
        w.len() as int
    } else {
        base_start(w.drop_last())
    }
}

/// `w` without its path: what follows its last `/`.
pub open spec fn base_name(w: Seq<char>) -> Seq<char> {
    w.skip(base_start(w))
}

/// Whether `name` is a program that runs another one as the superuser:
/// `sudo` or `doas`.
pub open spec fn is_wrapper(name: Seq<char>) -> bool {
    name == seq!['s', 'u', 'd', 'o'] || name == seq!['d', 'o', 'a', 's']
}

/// The program that `cmdline` names: its first word without the path, or,
/// where that is a wrapper, the word that follows, without its path too.
/// A wrapper behind a wrapper is the program. `None` where `cmdline` holds
/// no word, or only a wrapper.
pub open spec fn program_of(cmdline: Seq<char>) -> Option<Seq<char>> {
    match word(cmdline, 0) {
        None => None,
        Some(w) => if is_wrapper(base_name(w)) {
            match word(cmdline, 1) {
                Some(v) => Some(base_name(v)),
                None => None,
            }
        } else {
            Some(base_name(w))
        },
    }
}

/// The program name that `cmdline` is classified as. A command line that
/// names no program is classified as the default shell is; where the shell
/// names none either, as the empty name.
pub open spec fn classify(cmdline: Seq<char>, default_shell: Seq<char>) -> Seq<char> {
    match program_of(cmdline) {
        Some(p) => p,
        None => match program_of(default_shell) {
            Some(p) => p,
            None => Seq::empty(),
        },
    }
}

/// The mode a pane starts in when it runs `program`: `Locked` where the name
/// is in `locked`, else `Normal`.
pub open spec fn default_mode(locked: Set<Seq<char>>, program: Seq<char>) -> InputMode {
    if locked.contains(program) {
        InputMode::Locked
    } else {
        InputMode::Normal
    }
}

/// The name that the piece of a comma-separated list starting at `a`
/// holds: the piece runs up to the next comma or the end, and is trimmed.
pub open spec fn name_at(list: Seq<char>, a: int) -> Seq<char> {
    trim(list.subrange(a, find_char(list, ',', a)))
}

/// Whether a piece of the list starts at `a`, looking from `from` on: `a` is
/// `from` itself or stands right behind a comma.
pub open spec fn starts_piece(list: Seq<char>, from: int, a: int) -> bool {
    from <= a <= list.len() && (a == from || list[a - 1] == ',')
}

/// The names in a comma-separated list, from index `from` on: each piece
/// between two commas, trimmed. A list without a comma holds one name, which
/// may be empty.
pub open spec fn names_from(list: Seq<char>, from: int) -> Set<Seq<char>>
    decreases list.len() - from,
{
    let k = find_char(list, ',', from);
    if 0 <= from <= k < list.len() {
        names_from(list, k + 1).insert(name_at(list, from))
    } else {
        set![name_at(list, from)]
    }
}

/// The names in a comma-separated list.
pub open spec fn names_of(list: Seq<char>) -> Set<Seq<char>> {
    names_from(list, 0)
}

/// The view of an optional string slice.
pub open spec fn opt_text(o: Option<&str>) -> Option<Seq<char>> {
    match o {
        Some(s) => Some(s@),
        None => None,
    }
}

/// A name is in the list exactly where it is the name of one of its pieces.
pub proof fn law_names_are_the_pieces(list: Seq<char>, from: int, name: Seq<char>)
    requires
        0 <= from <= list.len(),
    ensures
        names_from(list, from).contains(name) <==> exists|a: int| #[trigger]
            starts_piece(list, from, a) && name == name_at(list, a),
    decreases list.len() - from,
{
    lemma_find_char(list, ',', from);
    let k = find_char(list, ',', from);
    assert(starts_piece(list, from, from));
    if k < list.len() {
        law_names_are_the_pieces(list, k + 1, name);
        if names_from(list, k + 1).contains(name) {
            let a = choose|a: int| #[trigger] starts_piece(list, k + 1, a) && name == name_at(list, a);
            assert(starts_piece(list, from, a));
        }
        if exists|a: int| #[trigger] starts_piece(list, from, a) && name == name_at(list, a) {
            let a = choose|a: int| #[trigger] starts_piece(list, from, a) && name == name_at(list, a);
            if a != from {
                assert(list[a - 1] == ',');
                assert(a - 1 >= k);
                assert(starts_piece(list, k + 1, a));
            }
        }
    } else {
        if exists|a: int| #[trigger] starts_piece(list, from, a) && name == name_at(list, a) {
            let a = choose|a: int| #[trigger] starts_piece(list, from, a) && name == name_at(list, a);
            if a != from {
                assert(list[a - 1] == ',');
            }
        }
    }
}

/// The programs that get `Locked` mode under a list are the names of its
/// pieces, and no others.
pub proof fn law_listed_programs_are_locked(list: Seq<char>, program: Seq<char>)
    ensures
        default_mode(names_of(list), program) == InputMode::Locked <==> exists|a: int| #[trigger]
            starts_piece(list, 0, a) && program == name_at(list, a),
        default_mode(names_of(list), program) == InputMode::Normal <==> !exists|a: int| #[trigger]
            starts_piece(list, 0, a) && program == name_at(list, a),
{
    law_names_are_the_pieces(list, 0, program);
}

/// A line behind a wrapper names what the line names alone. The wrapper is
/// one word, with or without a path; white space parts it from the line;
/// and the line's own first word is no wrapper.
pub proof fn law_wrapper_is_unwrapped(
    wrapper: Seq<char>,
    gap: Seq<char>,
    line: Seq<char>,
    default_shell: Seq<char>,
)
    requires
        is_wrapper(base_name(wrapper)),
        forall|i: int| 0 <= i < wrapper.len() ==> !is_space(#[trigger] wrapper[i]),
        gap.len() > 0,
        forall|i: int| 0 <= i < gap.len() ==> is_space(#[trigger] gap[i]),
        word(line, 0) matches Some(w) && !is_wrapper(base_name(w)),
    ensures
        program_of(wrapper + gap + line) == program_of(line),
        classify(wrapper + gap + line, default_shell) == classify(line, default_shell),
{
    reveal_with_fuel(word_start, 2);
    let s = wrapper + gap + line;
    let wl = wrapper.len() as int;
    let n = wl + gap.len();
    lemma_base_start(wrapper);
    assert(seq!['s', 'u', 'd', 'o'].len() == 4 && seq!['d', 'o', 'a', 's'].len() == 4);
    assert(wl >= 4);
    assert forall|i: int| 0 <= i < wl implies !is_space(#[trigger] s[i]) by {
        assert(s[i] == wrapper[i]);
    }
    assert(s[wl] == gap[0]);
    lemma_skip_spaces_is(s, 0, 0);
    lemma_skip_word_is(s, 0, wl);
    assert(s.subrange(0, wl) =~= wrapper);
    let a = skip_spaces(line, 0);
    lemma_skip_spaces(line, 0);
    let b = skip_word(line, a);
    lemma_skip_word(line, a);
    assert forall|i: int| wl <= i < n + a implies is_space(#[trigger] s[i]) by {
        if i < n {
            assert(s[i] == gap[i - wl]);
        } else {
            assert(s[i] == line[i - n]);
        }
    }
    assert(s[n + a] == line[a]);
    lemma_skip_spaces_is(s, wl, n + a);
    assert forall|i: int| n + a <= i < n + b implies !is_space(#[trigger] s[i]) by {
        assert(s[i] == line[i - n]);
    }
    if b < line.len() {
        assert(s[n + b] == line[b]);
    }
    lemma_skip_word_is(s, n + a, n + b);
    assert(s.subrange(n + a, n + b) =~= line.subrange(a, b));
    assert(word(s, 0) == Some(wrapper));
    assert(word(s, 1) == word(line, 0));
}

/// The base name of `w` is what follows its last `/`: `w` is its path, which
/// is empty or ends in `/`, and then its base name, which holds no `/`.
pub proof fn law_base_name_follows_last_slash(w: Seq<char>)
    ensures
        w == w.take(base_start(w)) + base_name(w),
        base_start(w) > 0 ==> w.take(base_start(w)).last() == '/',
        !base_name(w).contains('/'),
{
    lemma_base_start(w);
    assert(w =~= w.take(base_start(w)) + base_name(w));
}

/// `base_start` lies within the word, the character before it is a `/`, and
/// none follows.
pub proof fn lemma_base_start(w: Seq<char>)
    ensures
        0 <= base_start(w) <= w.len(),
        base_start(w) > 0 ==> w[base_start(w) - 1] == '/',
        forall|i: int| base_start(w) <= i < w.len() ==> #[trigger] w[i] != '/',
    decreases w.len(),
{
    if w.len() > 0 && w.last() != '/' {
        let t = w.drop_last();
        lemma_base_start(t);
        assert forall|i: int| base_start(w) <= i < w.len() implies #[trigger] w[i] != '/' by {
            if i < t.len() {
                assert(w[i] == t[i]);
            }
        }
        if base_start(w) > 0 {
            assert(w[base_start(w) - 1] == t[base_start(w) - 1]);
        }
    }
}

/// A word is not empty and holds no white space.
pub proof fn law_words_hold_no_space(s: Seq<char>, n: nat)
    ensures
        0 <= word_start(s, n) <= s.len(),
        word(s, n) matches Some(w) ==> w.len() > 0 && forall|i: int|
            0 <= i < w.len() ==> !is_space(#[trigger] w[i]),
    decreases n,
{
    if n == 0 {
        lemma_skip_spaces(s, 0);
    } else {
        law_words_hold_no_space(s, (n - 1) as nat);
        let a = word_start(s, (n - 1) as nat);
        lemma_skip_word(s, a);
        lemma_skip_spaces(s, skip_word(s, a));
    }
    let a = word_start(s, n);
    lemma_skip_spaces(s, if n == 0 {
        0
    } else {
        skip_word(s, word_start(s, (n - 1) as nat))
    });
    if a < s.len() {
        lemma_skip_word(s, a);
    }
}

/// The index behind the last `/` among the characters of `s` from `from` up
/// to `to`, or `from` where there is none.
fn after_last_slash(s: &Vec<char>, from: usize, to: usize) -> (r: usize)
    requires
        from <= to <= s.len(),
    ensures
        from <= r <= to,
        r == from + base_start(s@.subrange(from as int, to as int)),
{
    let mut r: usize = from;
    let mut i: usize = from;
    while i < to
        invariant
            from <= r <= i <= to <= s.len(),
            r == from + base_start(s@.subrange(from as int, i as int)),
        decreases to - i,
    {
        proof {
            let next = s@.subrange(from as int, i + 1);
            assert(next.last() == s@[i as int]);
            assert(next.drop_last() =~= s@.subrange(from as int, i as int));
        }
        if s[i] == '/' {
            r = i + 1;
        }
        i += 1;
    }
    r
}

/// Whether the characters of `s` from `from` up to `to` spell a wrapper.
fn is_wrapper_at(s: &Vec<char>, from: usize, to: usize) -> (r: bool)
    requires
        from <= to <= s.len(),
    ensures
        r == is_wrapper(s@.subrange(from as int, to as int)),
{
    let ghost name = s@.subrange(from as int, to as int);
    assert(seq!['s', 'u', 'd', 'o'].len() == 4 && seq!['d', 'o', 'a', 's'].len() == 4);
    if to - from != 4 {
        return false;
    }
    assert(name[0] == s@[from as int] && name[1] == s@[from + 1] && name[2] == s@[from + 2]
        && name[3] == s@[from + 3]);
    let sudo = s[from] == 's' && s[from + 1] == 'u' && s[from + 2] == 'd' && s[from + 3] == 'o';
    let doas = s[from] == 'd' && s[from + 1] == 'o' && s[from + 2] == 'a' && s[from + 3] == 's';
    proof {
        if sudo {
            assert(name =~= seq!['s', 'u', 'd', 'o']);
        }
        if doas {
            assert(name =~= seq!['d', 'o', 'a', 's']);
        }
    }
    sudo || doas
}

/// The program that `cmdline` names, where it names one.
pub fn parse_program<'a>(cmdline: &'a str) -> (r: Option<&'a str>)
    ensures
        opt_text(r) == program_of(cmdline@),
{
    let chars = chars_of(cmdline);
    let a = scan_spaces(&chars, 0);
    if a >= chars.len() {
        return None;
    }
    let b = scan_word(&chars, a);
    let start = after_last_slash(&chars, a, b);
    proof {
        let w = cmdline@.subrange(a as int, b as int);
        assert(base_name(w) =~= cmdline@.subrange(start as int, b as int));
    }
    if is_wrapper_at(&chars, start, b) {
        let c = scan_spaces(&chars, b);
        if c >= chars.len() {
            None
        } else {
            let d = scan_word(&chars, c);
            let wrapped = after_last_slash(&chars, c, d);
            proof {
                let v = cmdline@.subrange(c as int, d as int);
                assert(base_name(v) =~= cmdline@.subrange(wrapped as int, d as int));
            }
            Some(cmdline.substring_char(wrapped, d))
        }
    } else {
        Some(cmdline.substring_char(start, b))
    }
}

/// Tells which program a command line runs and which mode that program
/// wants. It is set up once and never changes afterwards.
pub struct ProgramClassifier {
    locked: StringHashSet,
    default_shell: String,
}

/// What a `ProgramClassifier` is made of.
pub struct ClassifierView {
    /// The programs that want `Locked` mode.
    pub locked: Set<Seq<char>>,
    /// The command line of the shell that runs where nothing else is named.
    pub default_shell: Seq<char>,
}

impl View for ProgramClassifier {
    type V = ClassifierView;

    closed spec fn view(&self) -> ClassifierView {
        ClassifierView { locked: self.locked@, default_shell: self.default_shell@ }
    }
}

impl ClassifierView {
    /// The mode a pane starts in whose command line is `cmdline`. A pane
    /// without one runs the default shell.
    pub open spec fn mode_for(self, cmdline: Option<Seq<char>>) -> InputMode {
        let line = match cmdline {
            Some(c) => c,
            None => self.default_shell,
        };
        default_mode(self.locked, classify(line, self.default_shell))
    }
}

impl ProgramClassifier {
    /// A classifier with no locked program.
    pub fn new(default_shell: String) -> (r: Self)
        ensures
            r@.locked == Set::<Seq<char>>::empty(),
            r@.default_shell == default_shell@,
    {
        ProgramClassifier { locked: StringHashSet::new(), default_shell }
    }

    /// A classifier whose locked programs are the names in the
    /// comma-separated `list`.
    pub fn from_list(list: &str, default_shell: String) -> (r: Self)
        ensures
            r@.locked == names_of(list@),
            r@.default_shell == default_shell@,
    {
        let mut r = ProgramClassifier::new(default_shell);
        let chars = chars_of(list);
        let mut from: usize = 0;
        loop
            invariant
                from <= chars.len(),
                chars@ == list@,
                r@.default_shell == default_shell@,
                names_of(list@) == r@.locked.union(names_from(list@, from as int)),
            ensures
                r@.default_shell == default_shell@,
                r@.locked == names_of(list@),
            decreases chars.len() - from,
        {
            let k = scan_to(&chars, ',', from);
            let (a, b) = trim_bounds(&chars, from, k);
            let ghost before = r@.locked;
            let ghost name = name_at(list@, from as int);
            r.locked.insert(list.substring_char(a, b).to_owned());
            assert(r@.locked == before.insert(name));
            if k < chars.len() {
                assert(names_of(list@) =~= r@.locked.union(names_from(list@, k + 1)));
                from = k + 1;
            } else {
                assert(names_of(list@) =~= r@.locked);
                break ;
            }
        }
        r
    }

    /// Makes `program` a locked one.
    pub fn lock(&mut self, program: &str)
        ensures
            final(self)@.locked == old(self)@.locked.insert(program@),
            final(self)@.default_shell == old(self)@.default_shell,
    {
        self.locked.insert(program.to_owned());
    }

    /// Whether `program` is a locked one.
    pub fn is_locked(&self, program: &str) -> (r: bool)
        ensures
            r == self@.locked.contains(program@),
    {
        self.locked.contains(program)
    }

    /// The program name that `cmdline` is classified as.
    pub fn classify<'a>(&'a self, cmdline: &'a str) -> (r: &'a str)
        ensures
            r@ == classify(cmdline@, self@.default_shell),
    {
        match parse_program(cmdline) {
            Some(p) => p,
            None => match parse_program(self.default_shell.as_str()) {
                Some(p) => p,
                None => {
                    proof {
                        reveal_strlit("");
                    }
                    assert(""@ =~= Seq::<char>::empty());
                    ""
                },
            },
        }
    }

    /// The mode a pane starts in when it runs `program`.
    pub fn default_mode(&self, program: &str) -> (r: InputMode)
        ensures
            r == default_mode(self@.locked, program@),
    {
        if self.locked.contains(program) {
            InputMode::Locked
        } else {
            InputMode::Normal
        }
    }

    /// The mode a pane starts in whose command line is `cmdline`.
    pub fn mode_for(&self, cmdline: Option<&str>) -> (r: InputMode)
        ensures
            r == self@.mode_for(opt_text(cmdline)),
    {
        let line = match cmdline {
            Some(c) => c,
            None => self.default_shell.as_str(),
        };
        self.default_mode(self.classify(line))
    }
}

} // verus!
