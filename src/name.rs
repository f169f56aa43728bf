//! Inference of a repository's name from its URL.
use vstd::prelude::*;

use crate::error::DotmanError;

verus! {

/// The suffix that marks a version-control repository URL.
pub open spec fn vcs_suffix() -> Seq<char> {
    seq!['.', 'g', 'i', 't']
}

pub open spec fn ends_with(s: Seq<char>, suffix: Seq<char>) -> bool {
    suffix.len() <= s.len() && s.subrange(s.len() - suffix.len(), s.len() as int) == suffix
}

/// `s` without one trailing `/`, if it has one.
pub open spec fn strip_slash(s: Seq<char>) -> Seq<char> {
    if s.len() > 0 && s.last() == '/' {
        s.drop_last()
    } else {
        s
    }
}

/// `s` without one trailing `.git`, if it has one.
pub open spec fn strip_vcs_suffix(s: Seq<char>) -> Seq<char> {
    if ends_with(s, vcs_suffix()) {
        s.subrange(0, s.len() - 4)
    } else {
        s
    }
}

/// What follows the last `/` of `s`, or all of `s` when it holds none.
pub open spec fn last_segment(s: Seq<char>) -> Seq<char>
    decreases s.len(),
{
    if s.len() == 0 {
        s
    } else if s.last() == '/' {
        Seq::empty()
    } else {
        last_segment(s.drop_last()).push(s.last())
    }
}

/// The name under which the repository at `url` is stored.
pub open spec fn repo_name_of(url: Seq<char>) -> Seq<char> {
    last_segment(strip_vcs_suffix(strip_slash(url)))
}

/// Splitting `s` at `start`, where no `/` follows, moves the chars after
/// `start` to the end of the last segment.
proof fn lemma_last_segment_step(s: Seq<char>, start: int, end: int)
    requires
        0 < start <= end <= s.len(),
        s[start - 1] != '/',
    ensures
        last_segment(s.subrange(0, start)) + s.subrange(start, end)
            == last_segment(s.subrange(0, start - 1)) + s.subrange(start - 1, end),
{
    let pre = s.subrange(0, start);
    assert(pre.drop_last() =~= s.subrange(0, start - 1));
    assert(pre.last() == s[start - 1]);
    assert(last_segment(pre) == last_segment(s.subrange(0, start - 1)).push(s[start - 1]));
    assert(last_segment(s.subrange(0, start - 1)).push(s[start - 1]) + s.subrange(start, end)
        =~= last_segment(s.subrange(0, start - 1)) + s.subrange(start - 1, end));
}

/// Infers a repository's name from its URL: drops one trailing `/`, then one
/// trailing `.git`, and keeps what follows the last remaining `/`. The result
/// is empty when nothing is left to name the repository.
pub fn derive_repo_name(repo_url: &str) -> (r: String)
    ensures
        r@ == repo_name_of(repo_url@),
{
    let ghost s = repo_url@;
    let n = repo_url.unicode_len();
    let mut end: usize = n;
    if end > 0 && repo_url.get_char(end - 1) == '/' {
        end = end - 1;
    }
    assert(s.subrange(0, end as int) =~= strip_slash(s));
    if end >= 4 && repo_url.get_char(end - 4) == '.' && repo_url.get_char(end - 3) == 'g'
        && repo_url.get_char(end - 2) == 'i' && repo_url.get_char(end - 1) == 't' {
        let ghost t = s.subrange(0, end as int);
        assert(t.subrange(t.len() - 4, t.len() as int) =~= vcs_suffix());
        end = end - 4;
        assert(s.subrange(0, end as int) =~= strip_vcs_suffix(t));
    } else {
        let ghost t = s.subrange(0, end as int);
        assert(!ends_with(t, vcs_suffix())) by {
            if ends_with(t, vcs_suffix()) {
                let tail = t.subrange(t.len() - 4, t.len() as int);
                assert(tail[0] == '.' && tail[1] == 'g' && tail[2] == 'i' && tail[3] == 't');
            }
        }
    }
    let mut start: usize = end;
    assert(s.subrange(start as int, end as int) =~= Seq::<char>::empty());
    while start > 0 && repo_url.get_char(start - 1) != '/'
        invariant
            s == repo_url@,
            end <= s.len(),
            start <= end,
            last_segment(s.subrange(0, end as int)) == last_segment(s.subrange(0, start as int))
                + s.subrange(start as int, end as int),
        decreases start,
    {
        proof {
            lemma_last_segment_step(s, start as int, end as int);
        }
        start = start - 1;
    }
    proof {
        let pre = s.subrange(0, start as int);
        if start > 0 {
            assert(pre.last() == '/');
        }
        assert(last_segment(pre) =~= Seq::<char>::empty());
        assert(Seq::<char>::empty() + s.subrange(start as int, end as int)
            =~= s.subrange(start as int, end as int));
    }
    repo_url.substring_char(start, end).to_owned()
}

/// The repository's name, or `InvalidRepoUrl` where the URL leaves it empty.
pub fn infer_repo_name(repo_url: &str) -> (r: Result<String, DotmanError>)
    ensures
        repo_name_of(repo_url@).len() == 0 <==> r == Err::<String, DotmanError>(
            DotmanError::InvalidRepoUrl,
        ),
        r is Ok <==> repo_name_of(repo_url@).len() > 0,
        r matches Ok(name) ==> name@ == repo_name_of(repo_url@),
{
    let name = derive_repo_name(repo_url);
    if name.unicode_len() == 0 {
        Err(DotmanError::InvalidRepoUrl)
    } else {
        Ok(name)
    }
}

/// A URL's name is unchanged by a trailing `/`, a trailing `.git`, or both,
/// added to a URL that ends in neither.
pub proof fn lemma_name_ignores_decorations(base: Seq<char>)
    requires
        !ends_with(base, seq!['/']),
        !ends_with(base, vcs_suffix()),
    ensures
        repo_name_of(base.push('/')) == repo_name_of(base),
        repo_name_of(base + vcs_suffix()) == repo_name_of(base),
        repo_name_of((base + vcs_suffix()).push('/')) == repo_name_of(base),
{
    let g = base + vcs_suffix();
    assert(base.push('/').drop_last() =~= base);
    assert(g.push('/').drop_last() =~= g);
    assert(g.subrange(g.len() - 4, g.len() as int) =~= vcs_suffix());
    assert(g.subrange(0, g.len() - 4) =~= base);
    assert(strip_slash(base) == base) by {
        if base.len() > 0 && base.last() == '/' {
            assert(base.subrange(base.len() - 1, base.len() as int) =~= seq!['/']);
        }
    }
}

} // verus!
