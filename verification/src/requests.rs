//! Request builders and response-decoding types, one module per endpoint
//! family, together with the fixed endpoint addresses and header values the
//! platform expects.

use vstd::prelude::*;

use crate::text::dec_rep;
use crate::text::usize_to_dec;

pub mod auth;
pub mod comment;
pub mod post;
pub mod stories;
pub mod user;

verus! {

/// Name of the header that echoes the csrf token back to the platform.
pub fn x_csrf_token_header() -> (r: &'static str)
    ensures
        r@ == "X-CSRFToken"@,
{
    "X-CSRFToken"
}

/// Root of the platform's web host; also the Referer on auth requests.
pub fn base_url() -> (r: &'static str)
    ensures
        r@ == "https://www.instagram.com/"@,
{
    "https://www.instagram.com/"
}

/// The login endpoint.
pub fn login_url() -> (r: &'static str)
    ensures
        r@ == "https://www.instagram.com/accounts/login/ajax/"@,
{
    "https://www.instagram.com/accounts/login/ajax/"
}

/// The logout endpoint.
pub fn logout_url() -> (r: &'static str)
    ensures
        r@ == "https://www.instagram.com/accounts/logout/"@,
{
    "https://www.instagram.com/accounts/logout/"
}

/// Desktop-browser fingerprint, required verbatim on login requests.
pub fn chrome_win_user_agent() -> (r: &'static str)
    ensures
        r@
            == "Mozilla/5.0 (Windows NT 6.1) AppleWebKit/537.36 (KHTML, like Gecko) Chrome/77.0.3865.120 Safari/537.36"@,
{
    "Mozilla/5.0 (Windows NT 6.1) AppleWebKit/537.36 (KHTML, like Gecko) Chrome/77.0.3865.120 Safari/537.36"
}

/// Mobile-app fingerprint, required verbatim on story endpoints.
pub fn stories_user_agent() -> (r: &'static str)
    ensures
        r@
            == "Instagram 123.0.0.21.114 (iPhone; CPU iPhone OS 11_4 like Mac OS X; en_US; en-US; scale=2.00; 750x1334) AppleWebKit/605.1.15"@,
{
    "Instagram 123.0.0.21.114 (iPhone; CPU iPhone OS 11_4 like Mac OS X; en_US; en-US; scale=2.00; 750x1334) AppleWebKit/605.1.15"
}

/// The per-user info endpoint behind the profile-picture lookup.
pub open spec fn spec_profile_pic_url(user_id: Seq<char>) -> Seq<char> {
    "https://i.instagram.com/api/v1/users/"@ + user_id + "/info/"@
}

/// Address of the per-user info endpoint.
pub fn profile_pic_url(user_id: &str) -> (r: String)
    ensures
        r@ == spec_profile_pic_url(user_id@),
{
    let mut r = String::from_str("https://i.instagram.com/api/v1/users/");
    r.append(user_id);
    r.append("/info/");
    r
}

/// The web-profile-info endpoint, parameterized by username.
pub open spec fn spec_web_profile_url(username: Seq<char>) -> Seq<char> {
    "https://i.instagram.com/api/v1/users/web_profile_info/?username="@ + username
}

/// Address of the web-profile-info endpoint.
pub fn web_profile_url(username: &str) -> (r: String)
    ensures
        r@ == spec_web_profile_url(username@),
{
    let mut r = String::from_str("https://i.instagram.com/api/v1/users/web_profile_info/?username=");
    r.append(username);
    r
}

/// The story query keyed by one reel id: the user's main stories.
pub open spec fn spec_main_stories_url(user_id: Seq<char>) -> Seq<char> {
    "https://www.instagram.com/graphql/query/?query_hash=45246d3fe16ccc6577e0bd297a5db1ab&variables=%7B%22reel_ids%22%3A%5B%22"@
        + user_id
        + "%22%5D%2C%22tag_names%22%3A%5B%5D%2C%22location_ids%22%3A%5B%5D%2C%22highlight_reel_ids%22%3A%5B%5D%2C%22precomposed_overlay%22%3Afalse%7D"@
}

/// Address of the main-stories query for one user.
pub fn main_stories_url(user_id: &str) -> (r: String)
    ensures
        r@ == spec_main_stories_url(user_id@),
{
    let mut r = String::from_str(
        "https://www.instagram.com/graphql/query/?query_hash=45246d3fe16ccc6577e0bd297a5db1ab&variables=%7B%22reel_ids%22%3A%5B%22",
    );
    r.append(user_id);
    r.append(
        "%22%5D%2C%22tag_names%22%3A%5B%5D%2C%22location_ids%22%3A%5B%5D%2C%22highlight_reel_ids%22%3A%5B%5D%2C%22precomposed_overlay%22%3Afalse%7D",
    );
    r
}

/// The same story query keyed by a batch of highlight-reel ids instead.
pub open spec fn spec_highlight_stories_url(joined_ids: Seq<char>) -> Seq<char> {
    "https://www.instagram.com/graphql/query/?query_hash=45246d3fe16ccc6577e0bd297a5db1ab&variables=%7B%22reel_ids%22%3A%5B%5D%2C%22tag_names%22%3A%5B%5D%2C%22location_ids%22%3A%5B%5D%2C%22highlight_reel_ids%22%3A%5B%22"@
        + joined_ids + "%22%5D%2C%22precomposed_overlay%22%3Afalse%7D"@
}

/// Address of the highlight-stories query for one batch of reel ids.
pub fn highlight_stories_url(joined_ids: &str) -> (r: String)
    ensures
        r@ == spec_highlight_stories_url(joined_ids@),
{
    let mut r = String::from_str(
        "https://www.instagram.com/graphql/query/?query_hash=45246d3fe16ccc6577e0bd297a5db1ab&variables=%7B%22reel_ids%22%3A%5B%5D%2C%22tag_names%22%3A%5B%5D%2C%22location_ids%22%3A%5B%5D%2C%22highlight_reel_ids%22%3A%5B%22",
    );
    r.append(joined_ids);
    r.append("%22%5D%2C%22precomposed_overlay%22%3Afalse%7D");
    r
}

/// The highlight-reel discovery query for one user.
pub open spec fn spec_highlight_ids_url(user_id: Seq<char>) -> Seq<char> {
    "https://www.instagram.com/graphql/query/?query_hash=c9100bf9110dd6361671f113dd02e7d6&variables=%7B%22user_id%22%3A%22"@
        + user_id
        + "%22%2C%22include_chaining%22%3Afalse%2C%22include_reel%22%3Afalse%2C%22include_suggested_users%22%3Afalse%2C%22include_logged_out_extras%22%3Afalse%2C%22include_highlight_reels%22%3Atrue%2C%22include_related_profiles%22%3Afalse%7D"@
}

/// Address of the highlight-reel discovery query.
pub fn highlight_ids_url(user_id: &str) -> (r: String)
    ensures
        r@ == spec_highlight_ids_url(user_id@),
{
    let mut r = String::from_str(
        "https://www.instagram.com/graphql/query/?query_hash=c9100bf9110dd6361671f113dd02e7d6&variables=%7B%22user_id%22%3A%22",
    );
    r.append(user_id);
    r.append(
        "%22%2C%22include_chaining%22%3Afalse%2C%22include_reel%22%3Afalse%2C%22include_suggested_users%22%3Afalse%2C%22include_logged_out_extras%22%3Afalse%2C%22include_highlight_reels%22%3Atrue%2C%22include_related_profiles%22%3Afalse%7D",
    );
    r
}

/// The timeline query for one page of a user's posts: page size and cursor
/// travel as plain GraphQL variables.
pub open spec fn spec_posts_url(user_id: Seq<char>, amount: nat, cursor: Seq<char>) -> Seq<char> {
    "https://www.instagram.com/graphql/query/?query_hash=42323d64886122307be10013ad2dcc44&variables={\"id\":\""@
        + user_id + "\",\"first\":"@ + dec_rep(amount) + ",\"after\":\""@ + cursor + "\"}"@
}

/// Address of one page of the posts query.
pub fn posts_url(user_id: &str, amount: usize, cursor: &str) -> (r: String)
    ensures
        r@ == spec_posts_url(user_id@, amount as nat, cursor@),
{
    let mut r = String::from_str(
        "https://www.instagram.com/graphql/query/?query_hash=42323d64886122307be10013ad2dcc44&variables={\"id\":\"",
    );
    r.append(user_id);
    r.append("\",\"first\":");
    let amount_dec = usize_to_dec(amount);
    r.append(amount_dec.as_str());
    r.append(",\"after\":\"");
    r.append(cursor);
    r.append("\"}");
    r
}

/// The GraphQL variables for one page of a post's comments, keyed by the
/// post's shortcode and the end cursor of the previous page.
pub open spec fn spec_comments_variables(
    shortcode: Seq<char>,
    amount: nat,
    cursor: Seq<char>,
) -> Seq<char> {
    "{\"shortcode\":\""@ + shortcode + "\",\"first\":"@ + dec_rep(amount) + ",\"after\":\""@
        + cursor + "\"}"@
}

/// The variables of one page of the comments query.
pub fn comments_variables(shortcode: &str, amount: usize, cursor: &str) -> (r: String)
    ensures
        r@ == spec_comments_variables(shortcode@, amount as nat, cursor@),
{
    let mut r = String::from_str("{\"shortcode\":\"");
    r.append(shortcode);
    r.append("\",\"first\":");
    let amount_dec = usize_to_dec(amount);
    r.append(amount_dec.as_str());
    r.append(",\"after\":\"");
    r.append(cursor);
    r.append("\"}");
    r
}

} // verus!
