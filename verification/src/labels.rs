use vstd::prelude::*;

verus! {

/// The character that writes the decimal digit `d` (for `0 <= d < 10`).
pub open spec fn digit_char(d: int) -> char {
    (48 + d) as char
}

/// The digits of `n` in base ten, most significant first, without leading zeros.
pub open spec fn decimal(n: nat) -> Seq<char>
    decreases n,
{
    if n < 10 {
        seq![digit_char(n as int)]
    } else {
        decimal(n / 10).push(digit_char((n % 10) as int))
    }
}

/// The number that a string of decimal digits denotes.
pub open spec fn digits_value(s: Seq<char>) -> int
    decreases s.len(),
{
    if s.len() == 0 {
        0
    } else {
        10 * digits_value(s.drop_last()) + (s.last() as int - 48)
    }
}

/// Whether every character of `s` is one of `0` to `9`.
pub open spec fn all_digits(s: Seq<char>) -> bool {
    forall|i: int| 0 <= i < s.len() ==> '0' <= #[trigger] s[i] <= '9'
}

/// A decimal numeral reads back as the number it was written from: it is made of
/// digits only, it is not empty, it starts with a zero only when it is `0`, and its
/// value is `n`.
pub proof fn law_decimal_reads_back(n: nat)
    ensures
        all_digits(decimal(n)),
        decimal(n).len() >= 1,
        decimal(n)[0] == '0' ==> n == 0,
        digits_value(decimal(n)) == n,
    decreases n,
{
    let d = (n % 10) as int;
    assert(digit_char(d) as int == 48 + d);
    if n >= 10 {
        law_decimal_reads_back(n / 10);
        let s = decimal(n);
        assert(s.drop_last() == decimal(n / 10));
        assert(10 * (n / 10) + n % 10 == n);
    } else {
        assert(decimal(n).drop_last() =~= Seq::<char>::empty());
        assert(digits_value(decimal(n).drop_last()) == 0);
    }
}

fn digit_str(d: u32) -> (s: &'static str)
    requires
        d < 10,
    ensures
        s@ == seq![digit_char(d as int)],
{
    proof {
        reveal_strlit("0");
        reveal_strlit("1");
        reveal_strlit("2");
        reveal_strlit("3");
        reveal_strlit("4");
        reveal_strlit("5");
        reveal_strlit("6");
        reveal_strlit("7");
        reveal_strlit("8");
        reveal_strlit("9");
    }
    if d == 0 {
        "0"
    } else if d == 1 {
        "1"
    } else if d == 2 {
        "2"
    } else if d == 3 {
        "3"
    } else if d == 4 {
        "4"
    } else if d == 5 {
        "5"
    } else if d == 6 {
        "6"
    } else if d == 7 {
        "7"
    } else if d == 8 {
        "8"
    } else {
        "9"
    }
}

fn append_decimal(s: &mut String, n: u32)
    ensures
        final(s)@ == old(s)@ + decimal(n as nat),
    decreases n,
{
    if n >= 10 {
        append_decimal(s, n / 10);
    }
    s.append(digit_str(n % 10));
    proof {
        if n >= 10 {
            assert(decimal(n as nat) == decimal((n / 10) as nat).push(digit_char((n % 10) as int)));
        }
    }
}

/// The text of a volume label: the percentage in decimal followed by `%`.
pub fn percent_label(percent: u32) -> (label: String)
    ensures
        label@ == decimal(percent as nat) + seq!['%'],
{
    let mut label = String::new();
    append_decimal(&mut label, percent);
    proof {
        reveal_strlit("%");
    }
    label.append("%");
    label
}

/// The characters of `path` after its last `/` (all of it when it has none).
pub open spec fn last_segment(path: Seq<char>) -> Seq<char>
    decreases path.len(),
{
    if path.len() == 0 || path.last() == '/' {
        Seq::empty()
    } else {
        last_segment(path.drop_last()).push(path.last())
    }
}

/// The final component of `path`, separators being `/`: repeated and trailing
/// separators are ignored and `.` segments are dropped, as `std::path::Path::components`
/// documents; `None` when nothing else is left.
pub open spec fn final_component(path: Seq<char>) -> Option<Seq<char>>
    decreases path.len(),
{
    if path.len() == 0 {
        None
    } else if path.last() == '/' {
        final_component(path.drop_last())
    } else if last_segment(path) == seq!['.'] {
        final_component(path.drop_last())
    } else {
        Some(last_segment(path))
    }
}

/// The file name of `path`: its final component, unless that is the parent directory
/// `..` or there is none.
pub open spec fn path_file_name(path: Seq<char>) -> Option<Seq<char>> {
    match final_component(path) {
        Some(component) => if component == seq!['.', '.'] {
            None
        } else {
            Some(component)
        },
        None => None,
    }
}

/// A plain path component: not empty, free of the separator `/`, and neither `.`
/// nor `..`.
pub open spec fn plain_component(name: Seq<char>) -> bool {
    &&& name.len() > 0
    &&& !name.contains('/')
    &&& name != seq!['.']
    &&& name != seq!['.', '.']
}

/// Whether `path` ends with the plain component `name`: it is `name` itself, or
/// `name` follows a `/`.
pub open spec fn ends_with_component(path: Seq<char>, name: Seq<char>) -> bool {
    &&& plain_component(name)
    &&& (path == name || (path.len() > name.len() && path[path.len() - name.len() - 1] == '/'
        && path.subrange(path.len() - name.len(), path.len() as int) == name))
}

/// Whether `path` ends in the parent directory `..`: it is `..`, or `..` follows a `/`.
pub open spec fn ends_in_parent(path: Seq<char>) -> bool {
    path == seq!['.', '.'] || (path.len() >= 3 && path.subrange(
        path.len() - 3,
        path.len() as int,
    ) == seq!['/', '.', '.'])
}

/// The file name of `path`, as `std::path::Path::file_name` gives it on the Linux
/// systems this program is built for (its window needs the Wayland layer shell), where
/// `/` is the only separator: the final component, with repeated and trailing
/// separators ignored and `.` segments dropped, and none when that component is `..`
/// or there is none. The whole of that behaviour is the spec function
/// `path_file_name`, and this function is proved against it.
fn file_name_of(path: &str) -> (name: Option<String>)
    ensures
        name.deep_view() == path_file_name(path@),
{
    let n = path.unicode_len();
    let mut end: usize = n;
    assert(path@.subrange(0, n as int) =~= path@);
    loop
        invariant
            end <= path@.len(),
            final_component(path@) == final_component(path@.subrange(0, end as int)),
        decreases end,
    {
        if end == 0 {
            proof {
                assert(path@.subrange(0, 0) =~= Seq::<char>::empty());
            }
            return None;
        }
        let ghost prefix = path@.subrange(0, end as int);
        if path.get_char(end - 1) == '/' {
            proof {
                assert(prefix.last() == '/');
                assert(prefix.drop_last() =~= path@.subrange(0, end - 1));
            }
            end = end - 1;
        } else {
            let mut start: usize = end - 1;
            while start > 0 && path.get_char(start - 1) != '/'
                invariant
                    start < end <= path@.len(),
                    forall|i: int| start <= i < end ==> path@[i] != '/',
                decreases start,
            {
                start = start - 1;
            }
            let ghost segment = path@.subrange(start as int, end as int);
            proof {
                assert(!segment.contains('/')) by {
                    if segment.contains('/') {
                        let i = choose|i: int| 0 <= i < segment.len() && segment[i] == '/';
                        assert(path@[start + i] == '/');
                    }
                }
                if start == 0 {
                    assert(prefix =~= segment);
                } else {
                    assert(prefix.subrange(prefix.len() - segment.len(), prefix.len() as int)
                        =~= segment);
                    assert(prefix[prefix.len() - segment.len() - 1] == path@[start - 1]);
                }
                lemma_last_segment_is_suffix(prefix, segment);
                assert(prefix.last() == path@[end - 1]);
            }
            if end - start == 1 && path.get_char(start) == '.' {
                proof {
                    assert(segment =~= seq!['.']);
                    assert(prefix.drop_last() =~= path@.subrange(0, start as int));
                }
                end = start;
            } else {
                proof {
                    if segment =~= seq!['.'] {
                        assert(segment[0] == path@[start as int]);
                    }
                }
                if end - start == 2 && path.get_char(start) == '.' && path.get_char(start + 1)
                    == '.' {
                    proof {
                        assert(segment =~= seq!['.', '.']);
                    }
                    return None;
                }
                proof {
                    if segment =~= seq!['.', '.'] {
                        assert(segment[0] == path@[start as int]);
                        assert(segment[1] == path@[start + 1]);
                    }
                }
                let component = path.substring_char(start, end);
                return Some(component.to_owned());
            }
        }
    }
}

/// The characters after the last `/` of a path that ends with a `/`-free `name`
/// (following a `/` or making up the whole path) are `name`.
proof fn lemma_last_segment_is_suffix(path: Seq<char>, name: Seq<char>)
    requires
        !name.contains('/'),
        path == name || (path.len() > name.len() && path[path.len() - name.len() - 1] == '/'
            && path.subrange(path.len() - name.len(), path.len() as int) == name),
    ensures
        last_segment(path) == name,
    decreases name.len(),
{
    if name.len() == 0 {
        if path != name {
            assert(path.last() == '/');
        }
    } else {
        let c = name.last();
        assert(name.contains(c) ==> c != '/');
        assert(name[name.len() - 1] == c);
        assert(path.last() == c) by {
            if path != name {
                assert(path.subrange(path.len() - name.len(), path.len() as int)[name.len() - 1]
                    == path[path.len() - 1]);
            }
        }
        let shorter = name.drop_last();
        assert(!shorter.contains('/')) by {
            if shorter.contains('/') {
                let i = choose|i: int| 0 <= i < shorter.len() && shorter[i] == '/';
                assert(name[i] == '/');
            }
        }
        if path == name {
            assert(path.drop_last() == shorter);
        } else {
            let p = path.drop_last();
            assert(p.subrange(p.len() - shorter.len(), p.len() as int) =~= shorter);
            assert(p[p.len() - shorter.len() - 1] == path[path.len() - name.len() - 1]);
        }
        lemma_last_segment_is_suffix(path.drop_last(), shorter);
        assert(last_segment(path) =~= shorter.push(c));
        assert(shorter.push(c) =~= name);
    }
}

/// A path that ends with a plain component has it as its file name; a path that ends
/// in `..`, and the root `/`, have none.
pub proof fn law_file_name_of_plain_paths(path: Seq<char>)
    ensures
        forall|last: Seq<char>|
            #[trigger] ends_with_component(path, last) ==> path_file_name(path) == Some(last),
        ends_in_parent(path) || path == seq!['/'] ==> path_file_name(path) is None,
{
    assert forall|last: Seq<char>| #[trigger]
        ends_with_component(path, last) implies path_file_name(path) == Some(last) by {
        lemma_last_segment_is_suffix(path, last);
        assert(last.contains(last.last()));
        assert(path.last() == last.last()) by {
            if path != last {
                assert(path.subrange(path.len() - last.len(), path.len() as int)[last.len() - 1]
                    == path[path.len() - 1]);
            }
        }
    }
    if ends_in_parent(path) {
        let dots = seq!['.', '.'];
        assert(!dots.contains('/'));
        if path != dots {
            assert(path[path.len() - 3] == path.subrange(path.len() - 3, path.len() as int)[0]);
            assert(path.subrange(path.len() - 2, path.len() as int) =~= dots);
        }
        lemma_last_segment_is_suffix(path, dots);
        assert(path.last() == '.');
        assert(last_segment(path).len() == 2);
        assert(final_component(path) == Some(dots));
    }
    if path == seq!['/'] {
        assert(path.drop_last() =~= Seq::<char>::empty());
        assert(final_component(Seq::<char>::empty()) is None);
        assert(final_component(path) is None);
    }
}

/// The text shown for a video file: its file name where the path has one, else the
/// whole path.
pub open spec fn shown_name(path: Seq<char>, file_name: Option<Seq<char>>) -> Seq<char> {
    match file_name {
        Some(name) => name,
        None => path,
    }
}

/// Picks the text to show for `path`, given the file name found in it (if any).
pub fn choose_display_name(path: &str, file_name: Option<String>) -> (shown: String)
    ensures
        shown@ == shown_name(path@, file_name.deep_view()),
{
    match file_name {
        Some(name) => name,
        None => path.to_owned(),
    }
}

/// The text shown on the settings panel for the video file at `path`: the plain
/// component it ends with, if any; the whole path when it ends in `..` or is `/`.
pub fn video_display_name(path: &str) -> (shown: String)
    ensures
        shown@ == shown_name(path@, path_file_name(path@)),
        forall|last: Seq<char>| #[trigger] ends_with_component(path@, last) ==> shown@ == last,
        ends_in_parent(path@) || path@ == seq!['/'] ==> shown@ == path@,
{
    proof {
        law_file_name_of_plain_paths(path@);
    }
    let file_name = file_name_of(path);
    choose_display_name(path, file_name)
}

} // verus!
