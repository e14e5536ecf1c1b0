use vstd::prelude::*;

use crate::text::str_eq;

verus! {

/// A piece between separators counts as a component unless it is empty or `.`.
pub open spec fn flush(piece: Seq<char>) -> Seq<Seq<char>> {
    if piece.len() == 0 || piece == seq!['.'] {
        Seq::empty()
    } else {
        seq![piece]
    }
}

/// The normal components of `s` (pieces between `/` separators, without
/// empty and `.` pieces), where `cur` is the piece read so far.
pub open spec fn normals_from(s: Seq<char>, cur: Seq<char>) -> Seq<Seq<char>>
    decreases s.len(),
{
    if s.len() == 0 {
        flush(cur)
    } else if s[0] == '/' {
        flush(cur) + normals_from(s.drop_first(), Seq::empty())
    } else {
        normals_from(s.drop_first(), cur.push(s[0]))
    }
}

/// The normal components of a path: repeated separators and `.` pieces
/// are ignored, `..` stays a component.
pub open spec fn normals(s: Seq<char>) -> Seq<Seq<char>> {
    normals_from(s, Seq::empty())
}

/// Whether a path starts at the root.
pub open spec fn is_absolute(s: Seq<char>) -> bool {
    s.len() > 0 && s[0] == '/'
}

/// Whether a relative path starts with the current-directory component:
/// it is `.` or starts with `./`.
pub open spec fn has_cur_dir(s: Seq<char>) -> bool {
    s == seq!['.'] || (s.len() >= 2 && s[0] == '.' && s[1] == '/')
}

/// The number of components of a path: the root, a leading `.`, and the
/// normal components.
pub open spec fn component_count(s: Seq<char>) -> nat {
    (if is_absolute(s) { 1nat } else { 0nat }) + (if has_cur_dir(s) { 1nat } else { 0nat })
        + normals(s).len()
}

/// Normal components joined by `/`.
pub open spec fn join(parts: Seq<Seq<char>>) -> Seq<char>
    decreases parts.len(),
{
    if parts.len() == 0 {
        Seq::empty()
    } else if parts.len() == 1 {
        parts[0]
    } else {
        join(parts.drop_last()) + seq!['/'] + parts.last()
    }
}

/// What a path is written as when rebuilt from its leading components and
/// the given normal components.
pub open spec fn rebuild(absolute: bool, cur_dir: bool, parts: Seq<Seq<char>>) -> Seq<char> {
    if absolute {
        seq!['/'] + join(parts)
    } else if cur_dir {
        if parts.len() == 0 {
            seq!['.']
        } else {
            seq!['.', '/'] + join(parts)
        }
    } else {
        join(parts)
    }
}

/// The path made of all components of `s` but the last one.
pub open spec fn parent(s: Seq<char>) -> Seq<char> {
    let n = normals(s);
    if n.len() == 0 {
        Seq::empty()
    } else {
        rebuild(is_absolute(s), has_cur_dir(s), n.drop_last())
    }
}

/// A normal component: not empty, not `.`, without separators.
pub open spec fn is_normal(p: Seq<char>) -> bool {
    p.len() > 0 && p != seq!['.'] && forall|i: int| 0 <= i < p.len() ==> p[i] != '/'
}

/// Reading a piece without separators only extends the current piece.
proof fn lemma_piece(p: Seq<char>, t: Seq<char>, cur: Seq<char>)
    requires
        forall|i: int| 0 <= i < p.len() ==> p[i] != '/',
    ensures
        normals_from(p + t, cur) == normals_from(t, cur + p),
    decreases p.len(),
{
    if p.len() == 0 {
        assert(p + t =~= t);
        assert(cur + p =~= cur);
    } else {
        assert((p + t)[0] == p[0]);
        assert((p + t).drop_first() =~= p.drop_first() + t);
        lemma_piece(p.drop_first(), t, cur.push(p[0]));
        assert(cur.push(p[0]) + p.drop_first() =~= cur + p);
    }
}

/// A separator ends the current piece.
proof fn lemma_split_at_separator(x: Seq<char>, y: Seq<char>, cur: Seq<char>)
    ensures
        normals_from(x + seq!['/'] + y, cur) == normals_from(x, cur) + normals_from(y, Seq::empty()),
    decreases x.len(),
{
    let w = x + seq!['/'] + y;
    if x.len() == 0 {
        assert(w =~= seq!['/'] + y);
        assert(w[0] == '/');
        assert(w.drop_first() =~= y);
    } else {
        assert(w[0] == x[0]);
        assert(w.drop_first() =~= x.drop_first() + seq!['/'] + y);
        if x[0] == '/' {
            lemma_split_at_separator(x.drop_first(), y, Seq::empty());
            assert(normals_from(w, cur) =~= normals_from(x, cur) + normals_from(y, Seq::empty()));
        } else {
            lemma_split_at_separator(x.drop_first(), y, cur.push(x[0]));
        }
    }
}

/// A normal component alone is read back as itself.
proof fn lemma_single(p: Seq<char>)
    requires
        is_normal(p),
    ensures
        normals(p) == seq![p],
{
    lemma_piece(p, Seq::empty(), Seq::empty());
    assert(p + Seq::<char>::empty() =~= p);
    assert(Seq::<char>::empty() + p =~= p);
}

/// Normal components joined by `/` are read back as themselves.
proof fn lemma_join(parts: Seq<Seq<char>>)
    requires
        forall|i: int| 0 <= i < parts.len() ==> is_normal(#[trigger] parts[i]),
    ensures
        normals(join(parts)) == parts,
    decreases parts.len(),
{
    if parts.len() == 0 {
        assert(flush(Seq::<char>::empty()) =~= Seq::<Seq<char>>::empty());
    } else if parts.len() == 1 {
        lemma_single(parts[0]);
        assert(parts =~= seq![parts[0]]);
    } else {
        let init = parts.drop_last();
        lemma_join(init);
        lemma_split_at_separator(join(init), parts.last(), Seq::empty());
        lemma_single(parts.last());
        assert(parts =~= init + seq![parts.last()]);
    }
}

/// A completed piece is a normal component, or is dropped.
proof fn lemma_flush_normal(cur: Seq<char>)
    requires
        forall|i: int| 0 <= i < cur.len() ==> cur[i] != '/',
    ensures
        forall|i: int| 0 <= i < flush(cur).len() ==> is_normal(#[trigger] flush(cur)[i]),
{
    if cur.len() > 0 && cur != seq!['.'] {
        assert(flush(cur) == seq![cur]);
        assert forall|i: int| 0 <= i < flush(cur).len() implies is_normal(#[trigger] flush(cur)[i]) by {
            assert(i == 0);
            assert(flush(cur)[0] == cur);
        }
    }
}

/// What is read from a path is made of normal components.
proof fn lemma_normals_are_normal(s: Seq<char>, cur: Seq<char>)
    requires
        forall|i: int| 0 <= i < cur.len() ==> cur[i] != '/',
    ensures
        forall|i: int| 0 <= i < normals_from(s, cur).len() ==> is_normal(#[trigger] normals_from(s, cur)[i]),
    decreases s.len(),
{
    if s.len() == 0 {
        lemma_flush_normal(cur);
        assert(normals_from(s, cur) == flush(cur));
    } else if s[0] == '/' {
        lemma_normals_are_normal(s.drop_first(), Seq::empty());
        lemma_flush_normal(cur);
        let f = flush(cur);
        let rest = normals_from(s.drop_first(), Seq::empty());
        assert(normals_from(s, cur) == f + rest);
        assert forall|i: int| 0 <= i < (f + rest).len() implies is_normal(#[trigger] (f + rest)[i]) by {
            if i >= f.len() {
                assert((f + rest)[i] == rest[i - f.len()]);
            } else {
                assert((f + rest)[i] == f[i]);
            }
        }
    } else {
        let c2 = cur.push(s[0]);
        assert forall|i: int| 0 <= i < c2.len() implies c2[i] != '/' by {
            if i < cur.len() {
                assert(c2[i] == cur[i]);
            }
        }
        lemma_normals_are_normal(s.drop_first(), c2);
        assert(normals_from(s, cur) == normals_from(s.drop_first(), c2));
    }
}

/// A joined non-empty sequence of normal components starts with its first one.
proof fn lemma_join_first(parts: Seq<Seq<char>>)
    requires
        parts.len() > 0,
    ensures
        join(parts).len() >= parts[0].len(),
        forall|i: int| 0 <= i < parts[0].len() ==> join(parts)[i] == parts[0][i],
        parts.len() > 1 ==> join(parts).len() > parts[0].len() && join(parts)[parts[0].len() as int] == '/',
    decreases parts.len(),
{
    if parts.len() > 1 {
        let init = parts.drop_last();
        lemma_join_first(init);
        assert(init[0] == parts[0]);
        let j = join(init);
        assert(join(parts) == j + seq!['/'] + parts.last());
        assert forall|i: int| 0 <= i < j.len() implies join(parts)[i] == j[i] by {}
        if init.len() == 1 {
            assert(j == parts[0]);
            assert(join(parts)[j.len() as int] == '/');
        }
    }
}

/// Path parents: the parent of a path with at least one component has one
/// component fewer; when the path has normal components, the parent keeps
/// all but the last of them, and whether it starts at the root or with `.`.
pub proof fn lemma_parent(s: Seq<char>)
    requires
        component_count(s) > 0,
    ensures
        component_count(parent(s)) == component_count(s) - 1,
        normals(s).len() > 0 ==> {
            &&& normals(parent(s)) == normals(s).drop_last()
            &&& is_absolute(parent(s)) == is_absolute(s)
            &&& has_cur_dir(parent(s)) == has_cur_dir(s)
        },
{
    let n = normals(s);
    if n.len() == 0 {
        assert(parent(s) =~= Seq::<char>::empty());
        assert(flush(Seq::<char>::empty()) =~= Seq::<Seq<char>>::empty());
        if is_absolute(s) {
            assert(!has_cur_dir(s));
        }
    } else {
        lemma_normals_are_normal(s, Seq::empty());
        let m = n.drop_last();
        assert forall|i: int| 0 <= i < m.len() implies is_normal(#[trigger] m[i]) by {
            assert(m[i] == n[i]);
        }
        lemma_join(m);
        let p = parent(s);
        if is_absolute(s) {
            assert(!has_cur_dir(s));
            assert(p =~= seq!['/'] + join(m));
            lemma_split_at_separator(Seq::empty(), join(m), Seq::empty());
            assert(Seq::<char>::empty() + seq!['/'] + join(m) =~= p);
            assert(flush(Seq::<char>::empty()) =~= Seq::<Seq<char>>::empty());
            assert(normals(p) =~= m);
            assert(p[0] == '/');
        } else if has_cur_dir(s) {
            if m.len() == 0 {
                assert(p =~= seq!['.']);
                lemma_piece(seq!['.'], Seq::empty(), Seq::empty());
                assert(seq!['.'] + Seq::<char>::empty() =~= seq!['.']);
                assert(Seq::<char>::empty() + seq!['.'] =~= seq!['.']);
                assert(normals(p) =~= m);
            } else {
                assert(p =~= seq!['.'] + (seq!['/'] + join(m)));
                lemma_piece(seq!['.'], seq!['/'] + join(m), Seq::empty());
                assert(Seq::<char>::empty() + seq!['.'] =~= seq!['.']);
                lemma_split_at_separator(Seq::empty(), join(m), seq!['.']);
                assert(Seq::<char>::empty() + seq!['/'] + join(m) =~= seq!['/'] + join(m));
                assert(flush(seq!['.']) =~= Seq::<Seq<char>>::empty());
                assert(normals(p) =~= m);
                assert(p[0] == '.' && p[1] == '/');
            }
        } else {
            assert(p == join(m));
            if m.len() > 0 {
                lemma_join_first(m);
                assert(m[0][0] != '/');
                if has_cur_dir(p) {
                    if p == seq!['.'] {
                        assert(m[0].len() <= 1);
                        assert(m[0] =~= seq!['.']);
                    } else {
                        if m[0].len() > 1 {
                            assert(m[0][1] == p[1]);
                        } else {
                            assert(m[0] =~= seq!['.']);
                        }
                    }
                }
            } else {
                assert(p =~= Seq::<char>::empty());
            }
        }
    }
}

/// The normal components of a path, split out.
fn split_normals(s: &str) -> (r: Vec<String>)
    ensures
        r@.map_values(|p: String| p@) == normals(s@),
        s@.len() <= usize::MAX,
{
    let n = s.unicode_len();
    let mut done: Vec<String> = Vec::new();
    let mut cur = String::new();
    let mut i: usize = 0;
    assert(s@.skip(0) =~= s@);
    assert(done@.map_values(|p: String| p@) =~= Seq::<Seq<char>>::empty());
    assert(cur@ =~= Seq::<char>::empty());
    while i < n
        invariant
            n == s@.len(),
            i <= n,
            normals(s@) == done@.map_values(|p: String| p@) + normals_from(s@.skip(i as int), cur@),
        decreases n - i,
    {
        let c = s.get_char(i);
        let ghost rest = s@.skip(i as int);
        assert(rest.drop_first() =~= s@.skip(i + 1));
        assert(rest[0] == c);
        if c == '/' {
            let ghost old_done = done@.map_values(|p: String| p@);
            let ghost cur_v = cur@;
            if cur.unicode_len() > 0 && !str_eq(cur.as_str(), ".") {
                proof {
                    reveal_strlit(".");
                    assert("."@ =~= seq!['.']);
                }
                done.push(cur);
                assert(done@.map_values(|p: String| p@) =~= old_done + flush(cur_v));
            } else {
                proof {
                    reveal_strlit(".");
                    assert("."@ =~= seq!['.']);
                }
                assert(flush(cur_v) =~= Seq::<Seq<char>>::empty());
                assert(done@.map_values(|p: String| p@) =~= old_done + flush(cur_v));
            }
            cur = String::new();
            assert(normals_from(rest, cur_v) == flush(cur_v) + normals_from(s@.skip(i + 1), Seq::empty()));
            assert(normals(s@) =~= done@.map_values(|p: String| p@) + normals_from(s@.skip(i + 1), cur@));
        } else {
            let ghost cur_v = cur@;
            cur.push(c);
            assert(normals_from(rest, cur_v) == normals_from(s@.skip(i + 1), cur_v.push(c)));
        }
        i = i + 1;
    }
    assert(s@.skip(n as int) =~= Seq::<char>::empty());
    let ghost old_done = done@.map_values(|p: String| p@);
    let ghost cur_v = cur@;
    proof {
        reveal_strlit(".");
        assert("."@ =~= seq!['.']);
    }
    if cur.unicode_len() > 0 && !str_eq(cur.as_str(), ".") {
        done.push(cur);
        assert(done@.map_values(|p: String| p@) =~= old_done + flush(cur_v));
    } else {
        assert(flush(cur_v) =~= Seq::<Seq<char>>::empty());
        assert(old_done + flush(cur_v) =~= old_done);
    }
    done
}

fn starts_at_root(s: &str) -> (r: bool)
    ensures
        r == is_absolute(s@),
{
    s.unicode_len() > 0 && s.get_char(0) == '/'
}

fn starts_with_cur_dir(s: &str) -> (r: bool)
    ensures
        r == has_cur_dir(s@),
{
    let n = s.unicode_len();
    if n == 1 {
        let r = s.get_char(0) == '.';
        assert(r == (s@ == seq!['.'])) by {
            if r {
                assert(s@ =~= seq!['.']);
            }
        }
        r
    } else if n >= 2 {
        s.get_char(0) == '.' && s.get_char(1) == '/'
    } else {
        false
    }
}

/// The number of components of a grid key read as a path.
pub fn components_count(key: &str) -> (r: usize)
    ensures
        r == component_count(key@),
{
    let parts = split_normals(key);
    let mut r = parts.len();
    assert(r == normals(key@).len());
    let ghost k = key@;
    if starts_at_root(key) {
        assert(r < key@.len()) by {
            assert(flush(Seq::<char>::empty()) =~= Seq::<Seq<char>>::empty());
            assert(normals(k) =~= normals_from(k.drop_first(), Seq::empty()));
            lemma_normals_len(k.drop_first(), Seq::empty());
        }
    } else if starts_with_cur_dir(key) {
        assert(r < key@.len()) by {
            if k == seq!['.'] {
                assert(k.drop_first() =~= Seq::<char>::empty());
                assert(normals_from(k, Seq::empty()) == normals_from(k.drop_first(), seq!['.']));
                assert(flush(seq!['.']) =~= Seq::<Seq<char>>::empty());
            } else {
                let t = k.drop_first();
                assert(Seq::<char>::empty().push('.') =~= seq!['.']);
                assert(normals_from(k, Seq::empty()) == normals_from(t, seq!['.']));
                assert(flush(seq!['.']) =~= Seq::<Seq<char>>::empty());
                assert(normals_from(t, seq!['.']) =~= normals_from(t.drop_first(), Seq::empty()));
                lemma_normals_len(t.drop_first(), Seq::empty());
            }
        }
    } else {
        assert(r <= key@.len()) by {
            lemma_normals_len(key@, Seq::empty());
        }
    }
    if starts_at_root(key) {
        r = r + 1;
    } else if starts_with_cur_dir(key) {
        r = r + 1;
    }
    r
}

/// There are fewer normal components than characters after the piece read so far.
proof fn lemma_normals_len(s: Seq<char>, cur: Seq<char>)
    ensures
        normals_from(s, cur).len() <= s.len() + (if cur.len() > 0 { 1int } else { 0int }),
    decreases s.len(),
{
    if s.len() > 0 {
        if s[0] == '/' {
            lemma_normals_len(s.drop_first(), Seq::empty());
        } else {
            lemma_normals_len(s.drop_first(), cur.push(s[0]));
        }
    }
}

/// Joins the first `m` parts with `/` after the given prefix.
fn join_into(prefix: &str, parts: &Vec<String>, m: usize) -> (r: String)
    requires
        m <= parts@.len(),
    ensures
        r@ == prefix@ + join(parts@.map_values(|p: String| p@).take(m as int)),
{
    let ghost pv = parts@.map_values(|p: String| p@);
    let mut r = prefix.to_owned();
    let mut j: usize = 0;
    while j < m
        invariant
            m <= parts@.len(),
            pv == parts@.map_values(|p: String| p@),
            j <= m,
            r@ == prefix@ + join(pv.take(j as int)),
        decreases m - j,
    {
        if j > 0 {
            r.push('/');
        }
        r.append(parts[j].as_str());
        assert(pv.take(j + 1).drop_last() =~= pv.take(j as int));
        assert(pv.take(j + 1).last() == parts@[j as int]@);
        if j == 0 {
            assert(join(pv.take(0)) =~= Seq::<char>::empty());
            assert(r@ =~= prefix@ + join(pv.take(j + 1)));
        } else {
            assert(r@ =~= prefix@ + join(pv.take(j + 1)));
        }
        j = j + 1;
    }
    r
}

/// The grid key one level up: the key without its last component.
pub fn parent_key(key: &str) -> (r: String)
    ensures
        r@ == parent(key@),
{
    let parts = split_normals(key);
    let ghost pv = parts@.map_values(|p: String| p@);
    let n = parts.len();
    if n == 0 {
        return String::new();
    }
    assert(pv.take(n - 1) =~= pv.drop_last());
    proof {
        reveal_strlit("/");
        reveal_strlit(".");
        reveal_strlit("./");
        reveal_strlit("");
    }
    if starts_at_root(key) {
        join_into("/", &parts, n - 1)
    } else if starts_with_cur_dir(key) {
        if n - 1 == 0 {
            ".".to_owned()
        } else {
            join_into("./", &parts, n - 1)
        }
    } else {
        join_into("", &parts, n - 1)
    }
}

} // verus!
