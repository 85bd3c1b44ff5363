use vstd::prelude::*;

use crate::errors::CommandError;

verus! {

/// Whether `i` is the position of the first occurrence of `c` in `s`.
pub open spec fn is_first_index_of(s: Seq<char>, c: char, i: int) -> bool {
    &&& 0 <= i < s.len()
    &&& s[i] == c
    &&& forall|j: int| 0 <= j < i ==> s[j] != c
}

/// Whether `c` occurs anywhere in `s`.
pub open spec fn has_char(s: Seq<char>, c: char) -> bool {
    exists|i: int| 0 <= i < s.len() && s[i] == c
}

/// The tokens of `s` under splitting on every single space, empty tokens
/// included; splitting the empty text yields one empty token.
pub open spec fn split_spaces(s: Seq<char>) -> Seq<Seq<char>>
    decreases s.len(),
{
    if s.len() == 0 {
        seq![Seq::<char>::empty()]
    } else if s[0] == ' ' {
        seq![Seq::<char>::empty()] + split_spaces(s.drop_first())
    } else {
        let rest = split_spaces(s.drop_first());
        seq![seq![s[0]] + rest[0]] + rest.drop_first()
    }
}

/// The text that interleaves the given tokens with single spaces.
pub open spec fn join_spaces(parts: Seq<Seq<char>>) -> Seq<char>
    decreases parts.len(),
{
    if parts.len() == 0 {
        Seq::<char>::empty()
    } else if parts.len() == 1 {
        parts[0]
    } else {
        parts[0] + seq![' '] + join_spaces(parts.drop_first())
    }
}

/// Splitting always yields at least one token.
pub proof fn lemma_split_spaces_len(s: Seq<char>)
    ensures
        split_spaces(s).len() >= 1,
    decreases s.len(),
{
    if s.len() != 0 && s[0] != ' ' {
        lemma_split_spaces_len(s.drop_first());
    }
}

/// When the first `j` characters of `u` hold no space, they form the first
/// token: either the whole text (no space at all up to its end) or the part
/// before the space at position `j`, the rest being split on its own.
pub proof fn lemma_split_spaces_first_token(u: Seq<char>, j: int)
    requires
        0 <= j <= u.len(),
        forall|m: int| 0 <= m < j ==> u[m] != ' ',
        j == u.len() || u[j] == ' ',
    ensures
        j == u.len() ==> split_spaces(u) == seq![u],
        j < u.len() ==> split_spaces(u) == seq![u.subrange(0, j)] + split_spaces(
            u.subrange(j + 1, u.len() as int),
        ),
    decreases j,
{
    lemma_split_spaces_len(u);
    if j == 0 {
        if u.len() == 0 {
            assert(u =~= Seq::<char>::empty());
            assert(split_spaces(u) =~~= seq![u]);
        } else {
            assert(u.subrange(0, 0) =~= Seq::<char>::empty());
            assert(u.subrange(1, u.len() as int) =~= u.drop_first());
            assert(split_spaces(u) =~~= seq![u.subrange(0, 0)] + split_spaces(
                u.subrange(1, u.len() as int),
            ));
        }
    } else {
        let ud = u.drop_first();
        lemma_split_spaces_first_token(ud, j - 1);
        lemma_split_spaces_len(ud);
        if j == u.len() {
            assert(split_spaces(ud) == seq![ud]);
            assert(seq![u[0]] + ud =~= u);
            assert(seq![ud].drop_first() =~= Seq::<Seq<char>>::empty());
            assert(split_spaces(u) =~~= seq![u]);
        } else {
            assert(split_spaces(ud) == seq![ud.subrange(0, j - 1)] + split_spaces(
                ud.subrange(j, ud.len() as int),
            ));
            assert(seq![u[0]] + ud.subrange(0, j - 1) =~= u.subrange(0, j));
            assert(ud.subrange(j, ud.len() as int) =~= u.subrange(j + 1, u.len() as int));
            assert(split_spaces(u) =~~= seq![u.subrange(0, j)] + split_spaces(
                u.subrange(j + 1, u.len() as int),
            ));
        }
    }
}

/// Appending one more token to a joined text inserts one space before it,
/// unless nothing was joined yet.
pub proof fn lemma_join_spaces_push(parts: Seq<Seq<char>>, x: Seq<char>)
    ensures
        parts.len() == 0 ==> join_spaces(parts.push(x)) == x,
        parts.len() > 0 ==> join_spaces(parts.push(x)) == join_spaces(parts) + seq![' '] + x,
    decreases parts.len(),
{
    if parts.len() == 0 {
        assert(join_spaces(parts.push(x)) == parts.push(x)[0]);
        assert(parts.push(x)[0] == x);
    } else if parts.len() == 1 {
        reveal_with_fuel(join_spaces, 3);
        assert(parts.push(x).drop_first() =~= seq![x]);
        assert(join_spaces(parts.push(x)) == parts[0] + seq![' '] + x);
    } else {
        lemma_join_spaces_push(parts.drop_first(), x);
        assert(parts.push(x).drop_first() =~= parts.drop_first().push(x));
        assert(join_spaces(parts.push(x)) =~= join_spaces(parts) + seq![' '] + x);
    }
}

/// The position of the first occurrence of `c` in `s`, if any.
pub fn find_char(s: &str, c: char) -> (r: Option<usize>)
    ensures
        r matches Some(i) ==> is_first_index_of(s@, c, i as int),
        r is None ==> !has_char(s@, c),
{
    let n = s.unicode_len();
    let mut k: usize = 0;
    while k < n
        invariant
            0 <= k <= n,
            n == s@.len(),
            forall|j: int| 0 <= j < k ==> s@[j] != c,
        decreases n - k,
    {
        if s.get_char(k) == c {
            return Some(k);
        }
        k = k + 1;
    }
    None
}

/// Splits `s` at the first occurrence of `sep`, which is consumed; yields
/// nothing when `sep` does not occur.
pub fn split_at_first(s: &str, sep: char) -> (r: Option<(String, String)>)
    ensures
        r is Some <==> has_char(s@, sep),
        r matches Some(p) ==> exists|i: int|
            is_first_index_of(s@, sep, i) && p.0@ == s@.subrange(0, i) && p.1@ == s@.subrange(
                i + 1,
                s@.len() as int,
            ),
{
    let n = s.unicode_len();
    match find_char(s, sep) {
        Some(i) => {
            let head = s.substring_char(0, i).to_owned();
            let tail = s.substring_char(i + 1, n).to_owned();
            Some((head, tail))
        },
        None => None,
    }
}

/// The tokens of `s`, split on every single space.
pub fn tokenize_spaces(s: &str) -> (r: Vec<String>)
    ensures
        r.deep_view() == split_spaces(s@),
        r.deep_view().len() >= 1,
{
    let n = s.unicode_len();
    let mut result: Vec<String> = Vec::new();
    let mut start: usize = 0;
    let mut k: usize = 0;
    proof {
        assert(s@.subrange(0, n as int) =~= s@);
        lemma_split_spaces_len(s@);
    }
    while k < n
        invariant
            0 <= start <= k <= n,
            n == s@.len(),
            forall|j: int| start <= j < k ==> s@[j] != ' ',
            split_spaces(s@) =~= result.deep_view() + split_spaces(
                s@.subrange(start as int, n as int),
            ),
        decreases n - k,
    {
        if s.get_char(k) == ' ' {
            let token = s.substring_char(start, k).to_owned();
            proof {
                let u = s@.subrange(start as int, n as int);
                lemma_split_spaces_first_token(u, k - start);
                assert(u.subrange(0, k - start) =~= s@.subrange(start as int, k as int));
                assert(u.subrange(k - start + 1, u.len() as int) =~= s@.subrange(
                    k + 1,
                    n as int,
                ));
                assert((result.deep_view().push(token@)) =~= result.deep_view() + seq![token@]);
            }
            result.push(token);
            start = k + 1;
            k = k + 1;
            proof {
                assert(split_spaces(s@) =~= result.deep_view() + split_spaces(
                    s@.subrange(start as int, n as int),
                ));
            }
        } else {
            k = k + 1;
        }
    }
    let token = s.substring_char(start, n).to_owned();
    proof {
        let u = s@.subrange(start as int, n as int);
        lemma_split_spaces_first_token(u, n - start);
        assert((result.deep_view().push(token@)) =~= result.deep_view() + seq![token@]);
    }
    result.push(token);
    proof {
        assert(result.deep_view() =~= split_spaces(s@));
    }
    result
}

/// Joins the tokens of `args` from position `from` on, separated by single
/// spaces.
pub fn join_from(args: &Vec<String>, from: usize) -> (r: String)
    requires
        from <= args@.len(),
    ensures
        r@ == join_spaces(args.deep_view().skip(from as int)),
{
    let mut r = String::new();
    let mut i: usize = from;
    while i < args.len()
        invariant
            from <= i <= args@.len(),
            args.deep_view().len() == args@.len(),
            r@ == join_spaces(args.deep_view().subrange(from as int, i as int)),
        decreases args@.len() - i,
    {
        proof {
            reveal_strlit(" ");
            lemma_join_spaces_push(
                args.deep_view().subrange(from as int, i as int),
                args.deep_view()[i as int],
            );
            assert(args.deep_view().subrange(from as int, i as int).push(
                args.deep_view()[i as int],
            ) =~= args.deep_view().subrange(from as int, i + 1));
            assert(" "@ =~= seq![' ']);
        }
        if i > from {
            r.append(" ");
        }
        r.append(args[i].as_str());
        proof {
            let pre = args.deep_view().subrange(from as int, i as int);
            let xi = args.deep_view()[i as int];
            assert(args@[i as int]@ == xi);
            if i > from {
                assert(r@ =~= join_spaces(pre) + seq![' '] + xi);
            } else {
                assert(pre.len() == 0);
                assert(r@ =~= xi);
            }
        }
        i = i + 1;
    }
    proof {
        assert(args.deep_view().subrange(from as int, args.deep_view().len() as int)
            =~= args.deep_view().skip(from as int));
    }
    r
}

/// Attempts to pop the argument at `index` from the argument list. Reports a
/// missing argument under the given name if the list is too short.
pub fn try_pop_arg(args: &Vec<String>, index: usize, name: &str) -> (r: Result<
    String,
    CommandError,
>)
    ensures
        index < args@.len() ==> (r matches Ok(s) && s@ == args.deep_view()[index as int]),
        index >= args@.len() ==> (r matches Err(e) && e matches CommandError::MissingArgument(n)
            && n@ == name@),
{
    if index < args.len() {
        let arg = args[index].clone();
        Ok(arg)
    } else {
        Err(CommandError::MissingArgument(name.to_owned()))
    }
}

} // verus!
