//! Command reconstruction: rebuilding a reproducible invocation line by
//! filtering volatile flags out of the literal invocation arguments.

use vstd::prelude::*;
use vstd::string::StringExecFns;
use crate::text::{str_eq, starts_with_str, has_prefix, join_with, join_strings, clone_string};

verus! {

/// What the single-pass filter does with one token.
pub enum TokenAction {
    /// Keep the token.
    EmitToken,
    /// Drop the token alone.
    DropToken,
    /// Drop the token and the value token that follows it.
    DropTokenAndNext,
}

/// The action for one token, tested in priority order: index flags when
/// index locations are excluded, find-links flags when those are excluded,
/// then the always-dropped volatile flags. Bare flags taking a value also
/// consume the following token; `=`-joined and concatenated forms do not.
pub open spec fn token_action(
    t: Seq<char>,
    include_index_url: bool,
    include_find_links: bool,
) -> TokenAction {
    if !include_index_url && (has_prefix(t, "--extra-index-url="@) || has_prefix(
        t,
        "--index-url="@,
    )) {
        TokenAction::DropToken
    } else if !include_index_url && (t == "--index-url"@ || t == "--extra-index-url"@) {
        TokenAction::DropTokenAndNext
    } else if !include_find_links && (t == "--find-links"@ || t == "-f"@) {
        TokenAction::DropTokenAndNext
    } else if !include_find_links && (has_prefix(t, "--find-links="@) || has_prefix(t, "-f"@)) {
        TokenAction::DropToken
    } else if t == "--upgrade"@ || t == "-U"@ {
        TokenAction::DropToken
    } else if t == "--upgrade-package"@ || t == "-P"@ {
        TokenAction::DropTokenAndNext
    } else if has_prefix(t, "--upgrade-package="@) || has_prefix(t, "-P"@) {
        TokenAction::DropToken
    } else if t == "--quiet"@ || t == "-q"@ {
        TokenAction::DropToken
    } else if t == "--verbose"@ || t == "-v"@ {
        TokenAction::DropToken
    } else {
        TokenAction::EmitToken
    }
}

/// Decide the action for one token.
fn classify_token(t: &String, include_index_url: bool, include_find_links: bool) -> (r: TokenAction)
    ensures
        r == token_action(t@, include_index_url, include_find_links),
{
    if !include_index_url && (starts_with_str(t.as_str(), "--extra-index-url=") || starts_with_str(
        t.as_str(),
        "--index-url=",
    )) {
        TokenAction::DropToken
    } else if !include_index_url && (str_eq(t.as_str(), "--index-url") || str_eq(
        t.as_str(),
        "--extra-index-url",
    )) {
        TokenAction::DropTokenAndNext
    } else if !include_find_links && (str_eq(t.as_str(), "--find-links") || str_eq(
        t.as_str(),
        "-f",
    )) {
        TokenAction::DropTokenAndNext
    } else if !include_find_links && (starts_with_str(t.as_str(), "--find-links=")
        || starts_with_str(t.as_str(), "-f")) {
        TokenAction::DropToken
    } else if str_eq(t.as_str(), "--upgrade") || str_eq(t.as_str(), "-U") {
        TokenAction::DropToken
    } else if str_eq(t.as_str(), "--upgrade-package") || str_eq(t.as_str(), "-P") {
        TokenAction::DropTokenAndNext
    } else if starts_with_str(t.as_str(), "--upgrade-package=") || starts_with_str(
        t.as_str(),
        "-P",
    ) {
        TokenAction::DropToken
    } else if str_eq(t.as_str(), "--quiet") || str_eq(t.as_str(), "-q") {
        TokenAction::DropToken
    } else if str_eq(t.as_str(), "--verbose") || str_eq(t.as_str(), "-v") {
        TokenAction::DropToken
    } else {
        TokenAction::EmitToken
    }
}

/// The surviving tokens: a left-to-right scan whose one piece of carried
/// state says whether the next token is consumed as a dropped flag's value.
pub open spec fn filter_tokens(
    tokens: Seq<Seq<char>>,
    include_index_url: bool,
    include_find_links: bool,
    skip_next: bool,
) -> Seq<Seq<char>>
    decreases tokens.len(),
{
    if tokens.len() == 0 {
        Seq::empty()
    } else if skip_next {
        filter_tokens(tokens.skip(1), include_index_url, include_find_links, false)
    } else {
        match token_action(tokens[0], include_index_url, include_find_links) {
            TokenAction::EmitToken => seq![tokens[0]] + filter_tokens(
                tokens.skip(1),
                include_index_url,
                include_find_links,
                false,
            ),
            TokenAction::DropToken => filter_tokens(
                tokens.skip(1),
                include_index_url,
                include_find_links,
                false,
            ),
            TokenAction::DropTokenAndNext => filter_tokens(
                tokens.skip(1),
                include_index_url,
                include_find_links,
                true,
            ),
        }
    }
}

/// Filter the invocation tokens, keeping only the reproducible ones.
pub fn filter_command_tokens(
    tokens: &Vec<String>,
    include_index_url: bool,
    include_find_links: bool,
) -> (r: Vec<String>)
    ensures
        r.deep_view() == filter_tokens(
            tokens.deep_view(),
            include_index_url,
            include_find_links,
            false,
        ),
{
    let ghost tdv = tokens.deep_view();
    let mut kept: Vec<String> = Vec::new();
    let mut skip_next = false;
    let mut i: usize = 0;
    proof {
        assert(tdv.skip(0) =~= tdv);
        assert(kept.deep_view() =~= Seq::<Seq<char>>::empty());
        assert(kept.deep_view() + filter_tokens(
            tdv.skip(0),
            include_index_url,
            include_find_links,
            false,
        ) =~= filter_tokens(tdv, include_index_url, include_find_links, false));
    }
    while i < tokens.len()
        invariant
            i <= tokens.len(),
            tdv == tokens.deep_view(),
            tdv.len() == tokens.len(),
            filter_tokens(tdv, include_index_url, include_find_links, false) == kept.deep_view()
                + filter_tokens(
                tdv.skip(i as int),
                include_index_url,
                include_find_links,
                skip_next,
            ),
        decreases tokens.len() - i,
    {
        let ghost prev_kept = kept.deep_view();
        let ghost rest = tdv.skip(i as int);
        proof {
            assert(rest[0] == tdv[i as int]);
            assert(rest.skip(1) =~= tdv.skip(i as int + 1));
        }
        if skip_next {
            skip_next = false;
        } else {
            match classify_token(&tokens[i], include_index_url, include_find_links) {
                TokenAction::EmitToken => {
                    kept.push(clone_string(&tokens[i]));
                    proof {
                        assert(kept.deep_view() =~= prev_kept.push(tdv[i as int]));
                        assert(prev_kept + (seq![tdv[i as int]] + filter_tokens(
                            rest.skip(1),
                            include_index_url,
                            include_find_links,
                            false,
                        )) =~= kept.deep_view() + filter_tokens(
                            rest.skip(1),
                            include_index_url,
                            include_find_links,
                            false,
                        ));
                    }
                },
                TokenAction::DropToken => {
                },
                TokenAction::DropTokenAndNext => {
                    skip_next = true;
                },
            }
        }
        i = i + 1;
    }
    proof {
        assert(tdv.skip(tokens.len() as int).len() == 0);
    }
    kept
}

/// The reproducible command line: a caller-supplied override verbatim, or
/// the program's invocation name followed by the surviving tokens, joined
/// with single spaces.
pub open spec fn reconstructed_command(
    prog: Seq<char>,
    tokens: Seq<Seq<char>>,
    include_index_url: bool,
    include_find_links: bool,
    custom: Option<Seq<char>>,
) -> Seq<char> {
    match custom {
        Option::Some(c) => c,
        Option::None => prog + seq![' '] + join_with(
            filter_tokens(tokens, include_index_url, include_find_links, false),
            seq![' '],
        ),
    }
}

/// Rebuild the invocation line for the output header.
pub fn reconstruct_command(
    prog: &str,
    tokens: &Vec<String>,
    include_index_url: bool,
    include_find_links: bool,
    custom: Option<String>,
) -> (r: String)
    ensures
        r@ == reconstructed_command(
            prog@,
            tokens.deep_view(),
            include_index_url,
            include_find_links,
            custom.deep_view(),
        ),
{
    match custom {
        Option::Some(c) => c,
        Option::None => {
            let kept = filter_command_tokens(tokens, include_index_url, include_find_links);
            let joined = join_strings(&kept, " ");
            let mut r = String::from_str(prog);
            r.append(" ");
            r.append(joined.as_str());
            proof {
                reveal_strlit(" ");
                assert(" "@ =~= seq![' ']);
            }
            r
        },
    }
}

} // verus!
