//! Query data related to user fetch

use vstd::prelude::*;

use crate::types::User;

verus! {

/// Describes the web profile query response
#[derive(Clone, Debug)]
pub struct WebProfileResponse {
    pub data: WebProfileData,
}

#[derive(Clone, Debug)]
pub struct WebProfileData {
    pub user: User,
}

impl WebProfileResponse {
    /// The profile entity this response carries.
    pub fn into_user(self) -> (r: User)
        ensures
            r == self.data.user,
    {
        self.data.user
    }
}

#[derive(Clone, Debug)]
pub struct UserInfoResponse {
    pub user: UserInfoUser,
}

#[derive(Clone, Debug)]
pub struct UserInfoUser {
    pub has_anonymous_profile_picture: Option<bool>,
    pub hd_profile_pic_url_info: Image,
    pub hd_profile_pic_versions: Option<Vec<Image>>,
}

#[derive(Clone, Debug)]
pub struct Image {
    pub url: Option<String>,
}

/// The URL of the last image variant that has one, scanning from the end
/// (the largest variant is presumed last).
pub open spec fn spec_last_url(imgs: Seq<Image>) -> Option<Seq<char>>
    decreases imgs.len(),
{
    if imgs.len() == 0 {
        None
    } else {
        match imgs.last().url {
            Some(u) => Some(u@),
            None => spec_last_url(imgs.drop_last()),
        }
    }
}

impl UserInfoUser {
    /// Which picture URL the scraper reports: none when the platform marks
    /// the picture as its anonymous default, else the single
    /// highest-definition field, else the last variant carrying a URL.
    pub open spec fn spec_best_picture(self) -> Option<Seq<char>> {
        if self.has_anonymous_profile_picture == Some(true) {
            None
        } else {
            match self.hd_profile_pic_url_info.url {
                Some(u) => Some(u@),
                None => match self.hd_profile_pic_versions {
                    Some(imgs) => spec_last_url(imgs@),
                    None => None,
                },
            }
        }
    }

    /// Select the profile picture URL this payload stands for.
    pub fn best_picture(self) -> (r: Option<String>)
        ensures
            match r {
                Some(u) => self.spec_best_picture() == Some(u@),
                None => self.spec_best_picture() is None,
            },
    {
        let anonymous = match self.has_anonymous_profile_picture {
            Some(b) => b,
            None => false,
        };
        if anonymous {
            return None;
        }
        if let Some(url) = self.hd_profile_pic_url_info.url {
            return Some(url);
        }
        match self.hd_profile_pic_versions {
            None => None,
            Some(imgs) => {
                let ghost all = imgs@;
                let mut imgs = imgs;
                let mut found: Option<String> = None;
                while imgs.len() > 0
                    invariant_except_break
                        found is None,
                        spec_last_url(all) == spec_last_url(imgs@),
                    ensures
                        match found {
                            Some(u) => spec_last_url(all) == Some(u@),
                            None => spec_last_url(all) is None,
                        },
                    decreases imgs.len(),
                {
                    let ghost before = imgs@;
                    let img = imgs.pop().unwrap();
                    proof {
                        assert(img == before.last());
                        assert(imgs@ =~= before.drop_last());
                    }
                    match img.url {
                        Some(u) => {
                            found = Some(u);
                            break ;
                        },
                        None => {},
                    }
                }
                found
            },
        }
    }
}

} // verus!
