//! The session: csrf-token lifecycle, the authenticated/unauthenticated
//! state machine, and the entry points of every scraping operation.
//!
//! The session never talks to the network itself. Each operation is begun
//! here — which is where the authentication gate sits — and the embedding
//! application performs the round-trips, feeding status codes, cookies and
//! decoded payloads back into the verified decision functions.

use vstd::prelude::*;

use crate::errors::is_success_status;
use crate::errors::InstagramScraperError;
use crate::errors::InstagramScraperResult;
use crate::paging::CommentsPager;
use crate::paging::PostsPager;
use crate::paging::StoriesScrape;
use crate::requests::auth::LogoutRequest;
use crate::requests::auth::UsernamePasswordLoginResponse;
use crate::requests::profile_pic_url;
use crate::requests::spec_profile_pic_url;
use crate::requests::spec_web_profile_url;
use crate::requests::web_profile_url;
use crate::types::Post;

verus! {

/// The session is a storage for values required by the instagram client to
/// work: it owns the csrf token and with it the authentication state.
#[derive(Debug)]
pub struct Session {
    pub csrftoken: Option<String>,
}

impl Default for Session {
    /// A brand-new session: unauthenticated, no token.
    fn default() -> (s: Session)
        ensures
            s.csrftoken is None,
    {
        Session { csrftoken: None }
    }
}

impl Session {
    /// A session is authenticated exactly while it holds a csrf token.
    pub open spec fn spec_authed(&self) -> bool {
        self.csrftoken is Some
    }

    /// Returns whether session is authed
    pub fn authed(&self) -> (r: bool)
        ensures
            r == self.spec_authed(),
    {
        self.csrftoken.is_some()
    }

    /// Fail unless the HTTP status of a completed round-trip is 2xx.
    pub fn restrict_successful(status: u16) -> (r: InstagramScraperResult<()>)
        ensures
            is_success_status(status) ==> r == Ok::<(), InstagramScraperError>(()),
            !is_success_status(status) ==> r == Err::<(), InstagramScraperError>(
                InstagramScraperError::RequestFailed(status),
            ),
    {
        if 200 <= status && status < 300 {
            Ok(())
        } else {
            Err(InstagramScraperError::from_status(status))
        }
    }

    /// Fail unless the session is authenticated.
    fn restrict_authed(&self) -> (r: InstagramScraperResult<()>)
        ensures
            self.spec_authed() ==> r == Ok::<(), InstagramScraperError>(()),
            !self.spec_authed() ==> r == Err::<(), InstagramScraperError>(
                InstagramScraperError::Unauthenticated,
            ),
    {
        if self.csrftoken.is_some() {
            Ok(())
        } else {
            Err(InstagramScraperError::Unauthenticated)
        }
    }

    /// Decide what a token-fetch round-trip yielded: a non-2xx status
    /// fails with that status; a 2xx response without the `csrftoken`
    /// cookie fails because the token is missing; else the token is it.
    pub fn process_csrf_response(status: u16, csrftoken: Option<String>) -> (r:
        InstagramScraperResult<String>)
        ensures
            !is_success_status(status) ==> r == Err::<String, InstagramScraperError>(
                InstagramScraperError::RequestFailed(status),
            ),
            is_success_status(status) && csrftoken is None ==> r == Err::<
                String,
                InstagramScraperError,
            >(InstagramScraperError::CsrfTokenIsMissing),
            is_success_status(status) && csrftoken is Some ==> r == Ok::<
                String,
                InstagramScraperError,
            >(csrftoken->0),
    {
        if !(200 <= status && status < 300) {
            return Err(InstagramScraperError::RequestFailed(status));
        }
        match csrftoken {
            Some(token) => Ok(token),
            None => Err(InstagramScraperError::CsrfTokenIsMissing),
        }
    }

    /// Decide what the credentialed login round-trip yielded: the platform
    /// saying `authenticated` keeps the token obtained beforehand; its
    /// explicit rejection fails with the status and message it gave,
    /// empty-string defaults where absent.
    pub fn process_login_response(token: String, body: UsernamePasswordLoginResponse) -> (r:
        InstagramScraperResult<String>)
        ensures
            body.authenticated ==> r == Ok::<String, InstagramScraperError>(token),
            !body.authenticated ==> match r {
                Err(InstagramScraperError::AuthenticationFailed { status, message }) => {
                    &&& status@ == (match body.status {
                        Some(s) => s@,
                        None => Seq::<char>::empty(),
                    })
                    &&& message@ == (match body.message {
                        Some(m) => m@,
                        None => Seq::<char>::empty(),
                    })
                },
                _ => false,
            },
    {
        if body.authenticated {
            Ok(token)
        } else {
            let status = match body.status {
                Some(s) => s,
                None => String::new(),
            };
            let message = match body.message {
                Some(m) => m,
                None => String::new(),
            };
            Err(InstagramScraperError::AuthenticationFailed { status, message })
        }
    }

    /// Store the token a successful login yielded: the session is
    /// authenticated from here on.
    pub fn complete_login(&mut self, token: String)
        ensures
            final(self).csrftoken == Some(token),
            final(self).spec_authed(),
    {
        self.csrftoken = Some(token);
    }

    /// Rotate the csrf token in place when a response carried a fresh one;
    /// keep the stored token otherwise.
    pub fn update_csrftoken(&mut self, token: Option<String>)
        ensures
            final(self).csrftoken == (match token {
                Some(t) => Some(t),
                None => old(self).csrftoken,
            }),
    {
        match token {
            Some(t) => {
                self.csrftoken = Some(t);
            },
            None => {},
        }
    }

    /// Reset to a brand-new unauthenticated session, as a completed logout
    /// calls for: the token is cleared, nothing of the old session stays.
    pub fn reset(&mut self)
        ensures
            final(self).csrftoken is None,
            !final(self).spec_authed(),
    {
        self.csrftoken = None;
    }

    /// Begin a logout: unauthenticated sessions cannot log out; else the
    /// stored token travels as the single form field.
    pub fn logout_form(&self) -> (r: InstagramScraperResult<Vec<(String, String)>>)
        ensures
            match r {
                Ok(form) => {
                    &&& self.spec_authed()
                    &&& form@.len() == 1
                    &&& form@[0].0@ == "csrfmiddlewaretoken"@
                    &&& Some(form@[0].1) == self.csrftoken
                },
                Err(e) => !self.spec_authed() && e == InstagramScraperError::Unauthenticated,
            },
    {
        match &self.csrftoken {
            Some(token) => Ok(LogoutRequest::new(token.clone()).form()),
            None => Err(InstagramScraperError::Unauthenticated),
        }
    }

    /// Begin a user-info scrape: requires an authenticated session and
    /// yields the address of the web-profile-info request.
    pub fn begin_userinfo(&self, username: &str) -> (r: InstagramScraperResult<String>)
        ensures
            match r {
                Ok(url) => self.spec_authed() && url@ == spec_web_profile_url(username@),
                Err(e) => !self.spec_authed() && e == InstagramScraperError::Unauthenticated,
            },
    {
        match self.restrict_authed() {
            Ok(()) => Ok(web_profile_url(username)),
            Err(e) => Err(e),
        }
    }

    /// Begin a profile-picture scrape: requires an authenticated session
    /// and yields the address of the per-user info request.
    pub fn begin_profile_pic(&self, user_id: &str) -> (r: InstagramScraperResult<String>)
        ensures
            match r {
                Ok(url) => self.spec_authed() && url@ == spec_profile_pic_url(user_id@),
                Err(e) => !self.spec_authed() && e == InstagramScraperError::Unauthenticated,
            },
    {
        match self.restrict_authed() {
            Ok(()) => Ok(profile_pic_url(user_id)),
            Err(e) => Err(e),
        }
    }

    /// Begin a posts scrape. A zero budget short-circuits: the pagination
    /// is done from the start and no request will ever be asked for.
    /// Otherwise the session must be authenticated and the pagination
    /// starts empty, with the empty cursor.
    pub fn begin_posts(&self, user_id: &str, max_posts: usize) -> (r: InstagramScraperResult<
        PostsPager,
    >)
        ensures
            max_posts == 0 ==> r is Ok,
            match r {
                Ok(p) => {
                    &&& p.wf()
                    &&& p.user_id@ == user_id@
                    &&& p.max_posts == max_posts
                    &&& p.collected@.len() == 0
                    &&& p.cursor@ == Seq::<char>::empty()
                    &&& (p.done <==> max_posts == 0)
                    &&& (max_posts > 0 ==> self.spec_authed())
                },
                Err(e) => !self.spec_authed() && max_posts > 0 && e
                    == InstagramScraperError::Unauthenticated,
            },
    {
        if max_posts == 0 {
            return Ok(PostsPager::new(user_id, 0));
        }
        match self.restrict_authed() {
            Ok(()) => Ok(PostsPager::new(user_id, max_posts)),
            Err(e) => Err(e),
        }
    }

    /// Begin a stories scrape: requires an authenticated session. The main
    /// stories are always fetched; whether highlight stories are is the
    /// scrape's own decision, driven by the requested amount.
    pub fn begin_stories(&self, user_id: &str, max_highlight_stories: usize) -> (r:
        InstagramScraperResult<StoriesScrape>)
        ensures
            match r {
                Ok(s) => {
                    &&& self.spec_authed()
                    &&& s.user_id@ == user_id@
                    &&& s.max_highlight_stories == max_highlight_stories
                },
                Err(e) => !self.spec_authed() && e == InstagramScraperError::Unauthenticated,
            },
    {
        match self.restrict_authed() {
            Ok(()) => Ok(
                StoriesScrape { user_id: String::from_str(user_id), max_highlight_stories },
            ),
            Err(e) => Err(e),
        }
    }

    /// Begin a comments scrape over a post: requires an authenticated
    /// session; the pagination is keyed by the post's shortcode.
    pub fn begin_comments(&self, post: &Post, max_comments: usize) -> (r: InstagramScraperResult<
        CommentsPager,
    >)
        ensures
            match r {
                Ok(p) => {
                    &&& self.spec_authed()
                    &&& p.wf()
                    &&& p.shortcode@ == post.shortcode@
                    &&& p.max_comments == max_comments
                    &&& p.collected@.len() == 0
                    &&& p.cursor@ == Seq::<char>::empty()
                    &&& (p.done <==> max_comments == 0)
                },
                Err(e) => !self.spec_authed() && e == InstagramScraperError::Unauthenticated,
            },
    {
        match self.restrict_authed() {
            Ok(()) => Ok(CommentsPager::new(post.shortcode.as_str(), max_comments)),
            Err(e) => Err(e),
        }
    }
}

} // verus!
