//! Path template for worktree creation: textual substitution of the
//! placeholders `{repoRoot}`, `{worktreeBaseDir}` and `{branch}`, in that
//! fixed order. Placeholders absent from the template are ignored; unknown
//! placeholders are left as literal text.

use vstd::prelude::*;
use vstd::string::*;

use crate::strutil::{
    contains_seq, lemma_match_at_skip, lemma_replace_first_match, lemma_replace_no_match,
    match_at, replace_all, replace_seq,
};

verus! {

/// The placeholder replaced by the repository root.
pub open spec fn repo_root_placeholder() -> Seq<char> {
    "{repoRoot}"@
}

/// The placeholder replaced by the worktree base directory.
pub open spec fn base_dir_placeholder() -> Seq<char> {
    "{worktreeBaseDir}"@
}

/// The placeholder replaced by the branch name.
pub open spec fn branch_placeholder() -> Seq<char> {
    "{branch}"@
}

/// The default template, resolving to `<base_dir>/<branch>`.
pub open spec fn default_template() -> Seq<char> {
    "{worktreeBaseDir}/{branch}"@
}

/// The rendering of template `t`: each placeholder substituted textually,
/// every occurrence exactly once, in the fixed order root, base, branch.
pub open spec fn render_spec(
    t: Seq<char>,
    root: Seq<char>,
    base: Seq<char>,
    branch: Seq<char>,
) -> Seq<char> {
    replace_seq(
        replace_seq(replace_seq(t, repo_root_placeholder(), root), base_dir_placeholder(), base),
        branch_placeholder(),
        branch,
    )
}

/// Path template for worktree creation, with simple variable substitution.
pub struct PathTemplate {
    template: String,
}

impl View for PathTemplate {
    type V = Seq<char>;

    closed spec fn view(&self) -> Seq<char> {
        self.template@
    }
}

impl PathTemplate {
    pub fn new(template: String) -> (r: Self)
        ensures
            r@ == template@,
    {
        Self { template }
    }

    /// Render the template with the given variables.
    pub fn render(&self, repo_root: &str, base_dir: &str, branch: &str) -> (r: String)
        ensures
            r@ == render_spec(self@, repo_root@, base_dir@, branch@),
    {
        proof {
            reveal_strlit("{repoRoot}");
            reveal_strlit("{worktreeBaseDir}");
            reveal_strlit("{branch}");
        }
        let step_root = replace_all(self.template.as_str(), "{repoRoot}", repo_root);
        let step_base = replace_all(step_root.as_str(), "{worktreeBaseDir}", base_dir);
        replace_all(step_base.as_str(), "{branch}", branch)
    }
}

impl Default for PathTemplate {
    /// The default template `{worktreeBaseDir}/{branch}`.
    fn default() -> (r: Self)
        ensures
            r@ == default_template(),
    {
        Self { template: String::from_str("{worktreeBaseDir}/{branch}") }
    }
}

/// Law: with the default template, rendering yields `<base>/<branch>`
/// verbatim, for any base directory that does not itself contain the branch
/// placeholder as literal text.
pub proof fn lemma_default_template_identity(root: Seq<char>, base: Seq<char>, branch: Seq<char>)
    requires
        !contains_seq(base, branch_placeholder()),
    ensures
        render_spec(default_template(), root, base, branch) == base + "/"@ + branch,
{
    reveal_strlit("{worktreeBaseDir}/{branch}");
    reveal_strlit("{repoRoot}");
    reveal_strlit("{worktreeBaseDir}");
    reveal_strlit("{branch}");
    reveal_strlit("/");
    let t = default_template();
    let rr = repo_root_placeholder();
    let wb = base_dir_placeholder();
    let br = branch_placeholder();
    assert(t.len() == 26 && rr.len() == 10 && wb.len() == 17 && br.len() == 8);

    // The default template holds no `{repoRoot}`.
    assert forall|i: int| !match_at(t, rr, i) by {
        if 0 <= i && i + 10 <= 26 {
            if t.subrange(i, i + 10) == rr {
                assert(t[i] == rr[0] && t[i + 1] == rr[1]);
                assert(false);
            }
        }
    }
    assert(!contains_seq(t, rr));
    lemma_replace_no_match(t, rr, root);

    // `{worktreeBaseDir}` occurs leftmost at position 0, and nowhere in the
    // remainder `/{branch}`.
    assert(t.subrange(0, 17) =~= wb);
    assert(match_at(t, wb, 0));
    lemma_replace_first_match(t, wb, base, 0);
    assert(t.skip(17).len() == 9);
    assert forall|i: int| !match_at(t.skip(17), wb, i) by {}
    assert(!contains_seq(t.skip(17), wb));
    lemma_replace_no_match(t.skip(17), wb, base);
    let s2 = base + t.skip(17);
    assert(replace_seq(t, wb, base) =~= s2);

    // `{branch}` occurs leftmost right after the separator; any earlier
    // occurrence would lie inside `base` or cover the separator `/`, which
    // is no character of the placeholder.
    let k: int = base.len() as int + 1;
    assert(s2.len() == base.len() + 9);
    assert(s2.subrange(k, k + 8) =~= br);
    assert(match_at(s2, br, k));
    assert forall|i: int| 0 <= i < k implies !match_at(s2, br, i) by {
        if match_at(s2, br, i) {
            if i + 8 <= base.len() {
                assert(s2.subrange(i, i + 8) =~= base.subrange(i, i + 8));
                assert(match_at(base, br, i));
                assert(contains_seq(base, br));
            } else {
                let j: int = base.len() - i;
                assert(0 <= j < 8);
                assert(s2.subrange(i, i + 8)[j] == s2[base.len() as int]);
                assert(s2[base.len() as int] == '/');
                assert(br[j] == '/');
                assert(false);
            }
        }
    }
    lemma_replace_first_match(s2, br, branch, k);
    assert(s2.skip(k + 8) =~= Seq::<char>::empty());
    assert(s2.skip(k + 8).len() < 8);
    assert(s2.subrange(0, k) =~= base + "/"@);
    assert(s2.subrange(0, k) + branch + replace_seq(s2.skip(k + 8), br, branch) =~= base + "/"@
        + branch);
}

/// Law: a template containing none of the three placeholders renders to
/// itself: unknown placeholder-shaped text is left as literal text and
/// causes no error.
pub proof fn lemma_unknown_placeholders_survive(
    t: Seq<char>,
    root: Seq<char>,
    base: Seq<char>,
    branch: Seq<char>,
)
    requires
        !contains_seq(t, repo_root_placeholder()),
        !contains_seq(t, base_dir_placeholder()),
        !contains_seq(t, branch_placeholder()),
    ensures
        render_spec(t, root, base, branch) == t,
{
    reveal_strlit("{repoRoot}");
    reveal_strlit("{worktreeBaseDir}");
    reveal_strlit("{branch}");
    lemma_replace_no_match(t, repo_root_placeholder(), root);
    lemma_replace_no_match(t, base_dir_placeholder(), base);
    lemma_replace_no_match(t, branch_placeholder(), branch);
}

/// Law: a template holding exactly one occurrence of the branch placeholder,
/// at position `k`, and neither of the other two placeholders, renders to the
/// template with that occurrence replaced by the branch name; all other text,
/// unknown placeholders included, survives verbatim.
pub proof fn lemma_single_branch_substitution(
    t: Seq<char>,
    root: Seq<char>,
    base: Seq<char>,
    branch: Seq<char>,
    k: int,
)
    requires
        !contains_seq(t, repo_root_placeholder()),
        !contains_seq(t, base_dir_placeholder()),
        match_at(t, branch_placeholder(), k),
        forall|i: int| i != k ==> !match_at(t, branch_placeholder(), i),
    ensures
        render_spec(t, root, base, branch) == t.subrange(0, k) + branch + t.skip(
            k + branch_placeholder().len(),
        ),
{
    reveal_strlit("{repoRoot}");
    reveal_strlit("{worktreeBaseDir}");
    reveal_strlit("{branch}");
    let rr = repo_root_placeholder();
    let wb = base_dir_placeholder();
    let br = branch_placeholder();
    assert(rr.len() == 10 && wb.len() == 17 && br.len() == 8);
    lemma_replace_no_match(t, rr, root);
    lemma_replace_no_match(t, wb, base);
    lemma_replace_first_match(t, br, branch, k);
    let tail = t.skip(k + 8);
    assert forall|i: int| !match_at(tail, br, i) by {
        if 0 <= i {
            lemma_match_at_skip(t, br, k + 8, i);
        }
    }
    assert(!contains_seq(tail, br));
    lemma_replace_no_match(tail, br, branch);
}

} // verus!
