use vstd::prelude::*;

use crate::text::{decimal, push_decimal};

verus! {

/// What a [`CameraInfo`] holds.
pub struct CameraInfoView {
    pub human_name: Seq<char>,
    pub description: Seq<char>,
    pub misc: Seq<char>,
    pub index: usize,
}

/// Information about a Camera e.g. its name.
/// `description` amd `misc` may contain backend-specific information.
/// `index` is a camera's index given to it by (usually) the OS usually in the order it is known
/// to the system.
#[derive(Clone, Debug, Hash, PartialEq, Eq)]
pub struct CameraInfo {
    human_name: String,
    description: String,
    misc: String,
    index: usize,
}

impl View for CameraInfo {
    type V = CameraInfoView;

    closed spec fn view(&self) -> CameraInfoView {
        CameraInfoView {
            human_name: self.human_name@,
            description: self.description@,
            misc: self.misc@,
            index: self.index,
        }
    }
}

/// The text of a [`CameraInfo`]: `Name: {}, Description: {}, Extra: {}, Index: {}`.
pub open spec fn camera_info_text(i: CameraInfoView) -> Seq<char> {
    "Name: "@ + i.human_name + ", Description: "@ + i.description + ", Extra: "@ + i.misc
        + ", Index: "@ + decimal(i.index as nat)
}

impl CameraInfo {
    /// Create a new [`CameraInfo`].
    pub fn new(human_name: String, description: String, misc: String, index: usize) -> (info: Self)
        ensures
            info@ == (CameraInfoView {
                human_name: human_name@,
                description: description@,
                misc: misc@,
                index,
            }),
    {
        CameraInfo { human_name, description, misc, index }
    }

    /// Get a reference to the device info's human name.
    pub fn human_name(&self) -> (name: &String)
        ensures
            name@ == self@.human_name,
    {
        &self.human_name
    }

    /// Set the device info's human name.
    pub fn set_human_name(&mut self, human_name: String)
        ensures
            final(self)@ == (CameraInfoView { human_name: human_name@, ..old(self)@ }),
    {
        self.human_name = human_name;
    }

    /// Get a reference to the device info's description.
    pub fn description(&self) -> (description: &String)
        ensures
            description@ == self@.description,
    {
        &self.description
    }

    /// Set the device info's description.
    pub fn set_description(&mut self, description: String)
        ensures
            final(self)@ == (CameraInfoView { description: description@, ..old(self)@ }),
    {
        self.description = description;
    }

    /// Get a reference to the device info's misc.
    pub fn misc(&self) -> (misc: &String)
        ensures
            misc@ == self@.misc,
    {
        &self.misc
    }

    /// Set the device info's misc.
    pub fn set_misc(&mut self, misc: String)
        ensures
            final(self)@ == (CameraInfoView { misc: misc@, ..old(self)@ }),
    {
        self.misc = misc;
    }

    /// Get a reference to the device info's index.
    pub fn index(&self) -> (index: &usize)
        ensures
            *index == self@.index,
    {
        &self.index
    }

    /// Set the device info's index.
    pub fn set_index(&mut self, index: usize)
        ensures
            final(self)@ == (CameraInfoView { index, ..old(self)@ }),
    {
        self.index = index;
    }

    /// The information as text: `Name: {}, Description: {}, Extra: {}, Index: {}`.
    pub fn to_string(&self) -> (s: String)
        ensures
            s@ == camera_info_text(self@),
    {
        let mut s = "Name: ".to_string();
        s.append(self.human_name.as_str());
        s.append(", Description: ");
        s.append(self.description.as_str());
        s.append(", Extra: ");
        s.append(self.misc.as_str());
        s.append(", Index: ");
        push_decimal(&mut s, self.index as u64);
        s
    }
}

impl Default for CameraInfo {
    /// Empty names and index 0.
    fn default() -> (info: Self)
        ensures
            info@ == (CameraInfoView {
                human_name: Seq::empty(),
                description: Seq::empty(),
                misc: Seq::empty(),
                index: 0,
            }),
    {
        CameraInfo {
            human_name: String::new(),
            description: String::new(),
            misc: String::new(),
            index: 0,
        }
    }
}

} // verus!
