use vstd::prelude::*;

use crate::error::ResolveError;

verus! {

/// Environment variable consulted first when settings hold no token.
pub const PRIMARY_TOKEN_VAR: &'static str = "GITHUB_TOKEN";

/// Environment variable consulted second when settings hold no token.
pub const SECONDARY_TOKEN_VAR: &'static str = "GITHUB_PERSONAL_ACCESS_TOKEN";

/// A source yields a token only when it is present and non-empty.
pub open spec fn usable(source: Option<Seq<char>>) -> bool {
    source matches Some(t) && t.len() > 0
}

/// The first usable source of: the explicit setting, then the primary variable, then
/// the secondary one.
pub open spec fn spec_token(
    setting: Option<Seq<char>>,
    primary: Option<Seq<char>>,
    secondary: Option<Seq<char>>,
) -> Option<Seq<char>> {
    if usable(setting) {
        setting
    } else if usable(primary) {
        primary
    } else if usable(secondary) {
        secondary
    } else {
        None
    }
}

pub open spec fn source_view(o: &Option<String>) -> Option<Seq<char>> {
    match o {
        Some(s) => Some(s@),
        None => None,
    }
}

fn take_usable(source: &Option<String>) -> (r: Option<String>)
    ensures
        usable(source_view(source)) ==> source_view(&r) == source_view(source),
        !usable(source_view(source)) ==> r is None,
{
    match source {
        Some(t) => {
            if t.as_str().unicode_len() > 0 {
                Some(t.clone())
            } else {
                None
            }
        },
        None => None,
    }
}

/// The access token for the launched server, from the first non-empty source in
/// fixed precedence; `MissingCredential` when every source is absent or empty.
pub fn resolve_token(
    setting: &Option<String>,
    primary: &Option<String>,
    secondary: &Option<String>,
) -> (r: Result<String, ResolveError>)
    ensures
        r matches Ok(t) ==> spec_token(source_view(setting), source_view(primary), source_view(secondary))
            == Some(t@),
        r is Err <==> spec_token(source_view(setting), source_view(primary), source_view(secondary))
            is None,
        r matches Err(e) ==> e is MissingCredential,
{
    if let Some(t) = take_usable(setting) {
        return Ok(t);
    }
    if let Some(t) = take_usable(primary) {
        return Ok(t);
    }
    if let Some(t) = take_usable(secondary) {
        return Ok(t);
    }
    Err(ResolveError::MissingCredential)
}

/// An explicit setting beats both variables, and the primary variable beats the
/// secondary one, whichever other sources are present too.
pub proof fn lemma_token_precedence(
    setting: Option<Seq<char>>,
    primary: Option<Seq<char>>,
    secondary: Option<Seq<char>>,
)
    ensures
        usable(setting) ==> spec_token(setting, primary, secondary) == setting,
        !usable(setting) && usable(primary) ==> spec_token(setting, primary, secondary) == primary,
        !usable(setting) && !usable(primary) ==> spec_token(setting, primary, secondary) == (if usable(
            secondary,
        ) {
            secondary
        } else {
            None
        }),
        spec_token(setting, primary, secondary) is Some <==> (usable(setting) || usable(primary)
            || usable(secondary)),
{
}

} // verus!
