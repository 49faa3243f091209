use vstd::prelude::*;

verus! {

/// The marker that opens a shader section: `#shader`.
pub open spec fn section_tag() -> Seq<u8> {
    seq![35u8, 115u8, 104u8, 97u8, 100u8, 101u8, 114u8]
}

/// The word that names the vertex section: `vertex`.
pub open spec fn vertex_word() -> Seq<u8> {
    seq![118u8, 101u8, 114u8, 116u8, 101u8, 120u8]
}

/// The word that names the fragment section: `fragment`.
pub open spec fn fragment_word() -> Seq<u8> {
    seq![102u8, 114u8, 97u8, 103u8, 109u8, 101u8, 110u8, 116u8]
}

/// `pat` occurs somewhere in `s`.
pub open spec fn has_sub(s: Seq<u8>, pat: Seq<u8>) -> bool {
    exists|i: int| 0 <= i && i + pat.len() <= s.len() && #[trigger] s.subrange(i, i + pat.len()) == pat
}

/// A line without the carriage return that ends it, if any.
pub open spec fn strip_cr(line: Seq<u8>) -> Seq<u8> {
    if line.len() > 0 && line.last() == 13u8 {
        line.drop_last()
    } else {
        line
    }
}

/// The split after one more line: a line with the section tag switches to
/// the section it names (if it names one); any other line, with a newline,
/// joins the current section, and is dropped before the first section.
/// The section is 0 for vertex, 1 for fragment, -1 for none yet.
pub open spec fn take_line(st: (int, Seq<u8>, Seq<u8>), line: Seq<u8>) -> (int, Seq<u8>, Seq<u8>) {
    if has_sub(line, section_tag()) {
        if has_sub(line, vertex_word()) {
            (0, st.1, st.2)
        } else if has_sub(line, fragment_word()) {
            (1, st.1, st.2)
        } else {
            st
        }
    } else if st.0 == 0 {
        (st.0, st.1 + line.push(10u8), st.2)
    } else if st.0 == 1 {
        (st.0, st.1, st.2 + line.push(10u8))
    } else {
        st
    }
}

/// The split of the complete lines of `s`, and the unfinished last line.
pub open spec fn scan(s: Seq<u8>) -> ((int, Seq<u8>, Seq<u8>), Seq<u8>)
    decreases s.len(),
{
    if s.len() == 0 {
        ((-1, Seq::empty(), Seq::empty()), Seq::empty())
    } else {
        let (st, line) = scan(s.drop_last());
        if s.last() == 10u8 {
            (take_line(st, strip_cr(line)), Seq::empty())
        } else {
            (st, line.push(s.last()))
        }
    }
}

/// The vertex and fragment sources that a combined shader file holds. Lines
/// end at a newline, with a carriage return before it removed; a last line
/// without a newline counts when it is not empty.
pub open spec fn parsed_shader(s: Seq<u8>) -> (Seq<u8>, Seq<u8>) {
    let (st, line) = scan(s);
    let fin = if line.len() > 0 { take_line(st, line) } else { st };
    (fin.1, fin.2)
}

/// Whether `pat` occurs in `hay`.
fn contains_sub(hay: &Vec<u8>, pat: &Vec<u8>) -> (r: bool)
    ensures
        r == has_sub(hay@, pat@),
{
    let n = hay.len();
    let m = pat.len();
    if m > n {
        return false;
    }
    let mut i: usize = 0;
    while i <= n - m
        invariant
            m <= n,
            n == hay@.len(),
            m == pat@.len(),
            i <= n - m + 1,
            forall|j: int| 0 <= j < i ==> #[trigger] hay@.subrange(j, j + m) != pat@,
        decreases n - m + 1 - i,
    {
        let mut k: usize = 0;
        while k < m && hay[i + k] == pat[k]
            invariant
                i + m <= n,
                n == hay@.len(),
                m == pat@.len(),
                k <= m,
                forall|t: int| 0 <= t < k ==> hay@[i + t] == pat@[t],
            decreases m - k,
        {
            k = k + 1;
        }
        if k == m {
            assert(hay@.subrange(i as int, i + m) =~= pat@);
            return true;
        }
        assert(hay@.subrange(i as int, i + m)[k as int] != pat@[k as int]);
        i = i + 1;
    }
    false
}

/// Appends `src` to `dst`.
fn push_all(dst: &mut Vec<u8>, src: &Vec<u8>)
    ensures
        final(dst)@ == old(dst)@ + src@,
{
    let mut i: usize = 0;
    while i < src.len()
        invariant
            i <= src@.len(),
            dst@ == old(dst)@ + src@.take(i as int),
        decreases src@.len() - i,
    {
        dst.push(src[i]);
        i = i + 1;
        assert(dst@ =~= old(dst)@ + src@.take(i as int));
    }
    assert(src@.take(src@.len() as int) =~= src@);
}

/// The words the parser looks for.
struct Words {
    tag: Vec<u8>,
    vertex: Vec<u8>,
    fragment: Vec<u8>,
}

impl Words {
    spec fn wf(&self) -> bool {
        self.tag@ == section_tag() && self.vertex@ == vertex_word() && self.fragment@ == fragment_word()
    }

    fn new() -> (r: Words)
        ensures
            r.wf(),
    {
        let r = Words {
            tag: vec![35u8, 115u8, 104u8, 97u8, 100u8, 101u8, 114u8],
            vertex: vec![118u8, 101u8, 114u8, 116u8, 101u8, 120u8],
            fragment: vec![102u8, 114u8, 97u8, 103u8, 109u8, 101u8, 110u8, 116u8],
        };
        assert(r.tag@ =~= section_tag());
        assert(r.vertex@ =~= vertex_word());
        assert(r.fragment@ =~= fragment_word());
        r
    }
}

/// Files one line into the split.
fn file_line(words: &Words, kind: &mut i8, vertex: &mut Vec<u8>, fragment: &mut Vec<u8>, line: &Vec<u8>)
    requires
        words.wf(),
        -1 <= *old(kind) <= 1,
    ensures
        -1 <= *final(kind) <= 1,
        (*final(kind) as int, final(vertex)@, final(fragment)@) == take_line(
            (*old(kind) as int, old(vertex)@, old(fragment)@),
            line@,
        ),
{
    if contains_sub(line, &words.tag) {
        if contains_sub(line, &words.vertex) {
            *kind = 0;
        } else if contains_sub(line, &words.fragment) {
            *kind = 1;
        }
    } else if *kind == 0 {
        push_all(vertex, line);
        vertex.push(10u8);
    } else if *kind == 1 {
        push_all(fragment, line);
        fragment.push(10u8);
    }
}

/// Splits a combined shader file into its vertex and its fragment source.
pub fn parse_shader(contents: &[u8]) -> (r: (Vec<u8>, Vec<u8>))
    ensures
        (r.0@, r.1@) == parsed_shader(contents@),
{
    let words = Words::new();
    let mut kind: i8 = -1;
    let mut vertex: Vec<u8> = Vec::new();
    let mut fragment: Vec<u8> = Vec::new();
    let mut line: Vec<u8> = Vec::new();
    let n = contents.len();
    let mut i: usize = 0;
    while i < n
        invariant
            words.wf(),
            n == contents@.len(),
            i <= n,
            -1 <= kind <= 1,
            scan(contents@.take(i as int)) == ((kind as int, vertex@, fragment@), line@),
        decreases n - i,
    {
        let b = contents[i];
        assert(contents@.take(i + 1).drop_last() =~= contents@.take(i as int));
        if b == 10u8 {
            let ghost before = line@;
            let len = line.len();
            if len > 0 && line[len - 1] == 13u8 {
                line.pop();
                assert(line@ =~= strip_cr(before));
            }
            file_line(&words, &mut kind, &mut vertex, &mut fragment, &line);
            line = Vec::new();
        } else {
            line.push(b);
        }
        i = i + 1;
    }
    assert(contents@.take(n as int) =~= contents@);
    if line.len() > 0 {
        file_line(&words, &mut kind, &mut vertex, &mut fragment, &line);
    }
    (vertex, fragment)
}

} // verus!
