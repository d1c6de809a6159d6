use vstd::prelude::*;

verus! {

/// An avatar that has been materialised: its id and where it can be fetched.
#[derive(Debug, Clone)]
pub struct Avatar {
    file_name: String,
    url: String,
}

/// What an `Avatar` holds, as plain text.
pub struct AvatarView {
    pub file_name: Seq<char>,
    pub url: Seq<char>,
}

impl View for Avatar {
    type V = AvatarView;

    closed spec fn view(&self) -> AvatarView {
        AvatarView { file_name: self.file_name@, url: self.url@ }
    }
}

/// Builds an avatar record from its id and its locator.
pub fn new(file_name: String, url: String) -> (avatar: Avatar)
    ensures
        avatar@ == (AvatarView { file_name: file_name@, url: url@ }),
{
    Avatar { file_name, url }
}

impl Avatar {
    /// The id the avatar is stored under.
    pub fn file_name(&self) -> (res: &String)
        ensures
            res@ == self@.file_name,
    {
        &self.file_name
    }

    /// Where the avatar can be fetched.
    pub fn url(&self) -> (res: &String)
        ensures
            res@ == self@.url,
    {
        &self.url
    }
}

} // verus!
