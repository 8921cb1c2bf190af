//! The campaign record and what must always hold of it.

use vstd::prelude::*;
use crate::identity::Identity;

verus! {

/// One fundraising effort: who owns it, what it asks for, when it runs and how
/// far it has come. The descriptive fields are stored and never interpreted.
#[derive(Clone, Debug, PartialEq, Eq)]
pub struct Campaign {
    pub owner: Identity,
    pub funding_complete: bool,
    pub funds_claimed: bool,
    pub email: String,
    pub title: String,
    pub name: String,
    pub admission_proof_url: String,
    pub university_name: String,
    pub matric_number: String,
    pub course_of_study: String,
    pub year_of_entry: u16,
    pub student_image_url: String,
    pub student_result_image_url: String,
    pub funding_reason: String,
    pub project_link: String,
    pub goal: u64,
    pub total_raised: u64,
    pub start_time: i64,
    pub end_time: i64,
}

/// What a campaign's descriptive fields hold.
pub struct Description {
    pub email: Seq<char>,
    pub title: Seq<char>,
    pub name: Seq<char>,
    pub admission_proof_url: Seq<char>,
    pub university_name: Seq<char>,
    pub matric_number: Seq<char>,
    pub course_of_study: Seq<char>,
    pub year_of_entry: nat,
    pub student_image_url: Seq<char>,
    pub student_result_image_url: Seq<char>,
    pub funding_reason: Seq<char>,
    pub project_link: Seq<char>,
}

/// A campaign as the rules see it.
pub struct CampaignView {
    pub owner: Seq<u8>,
    pub goal: nat,
    pub total_raised: nat,
    pub start_time: int,
    pub end_time: int,
    pub funding_complete: bool,
    pub funds_claimed: bool,
    pub description: Description,
}

impl CampaignView {
    /// What holds of every campaign that the operations produce: a positive
    /// goal that is never exceeded, a window that ends after it starts, a
    /// completion flag that is set exactly at the goal, and no claim before
    /// completion.
    pub open spec fn wf(self) -> bool {
        &&& 0 < self.goal
        &&& self.start_time < self.end_time
        &&& self.total_raised <= self.goal
        &&& (self.funding_complete <==> self.total_raised == self.goal)
        &&& (self.funds_claimed ==> self.funding_complete)
    }
}

impl View for Campaign {
    type V = CampaignView;

    open spec fn view(&self) -> CampaignView {
        CampaignView {
            owner: self.owner@,
            goal: self.goal as nat,
            total_raised: self.total_raised as nat,
            start_time: self.start_time as int,
            end_time: self.end_time as int,
            funding_complete: self.funding_complete,
            funds_claimed: self.funds_claimed,
            description: Description {
                email: self.email@,
                title: self.title@,
                name: self.name@,
                admission_proof_url: self.admission_proof_url@,
                university_name: self.university_name@,
                matric_number: self.matric_number@,
                course_of_study: self.course_of_study@,
                year_of_entry: self.year_of_entry as nat,
                student_image_url: self.student_image_url@,
                student_result_image_url: self.student_result_image_url@,
                funding_reason: self.funding_reason@,
                project_link: self.project_link@,
            },
        }
    }
}

} // verus!
