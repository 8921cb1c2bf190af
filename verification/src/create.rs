//! Creating a campaign.

use vstd::prelude::*;
use crate::campaign::{Campaign, CampaignView, Description};
use crate::errors::Errors;
use crate::identity::Identity;

verus! {

/// What a creation works on: the party that creates the campaign and will own it.
#[derive(Clone, Copy, Debug, PartialEq, Eq)]
pub struct CreateCampaign {
    pub signer: Identity,
}

/// The reason for which a creation at time `now` is rejected, if it is: a
/// window that starts in the past or does not end after its start, or, with a
/// window in order, a goal of zero.
pub open spec fn creation_rejection(now: int, goal: nat, start_time: int, end_time: int) -> Option<
    Errors,
> {
    if start_time < now || end_time <= start_time {
        Some(Errors::InvalidWindow)
    } else if goal == 0 {
        Some(Errors::InvalidGoal)
    } else {
        None
    }
}

/// The campaign that a creation brings about: nothing raised yet, neither
/// complete nor claimed.
pub open spec fn created(
    owner: Seq<u8>,
    description: Description,
    goal: nat,
    start_time: int,
    end_time: int,
) -> CampaignView {
    CampaignView {
        owner,
        goal,
        total_raised: 0,
        start_time,
        end_time,
        funding_complete: false,
        funds_claimed: false,
        description,
    }
}

/// Creates a campaign owned by the signer, with the given descriptive fields,
/// goal and window, at time `now`.
///
/// The window may start at `now` but not before it.
pub fn create_campaign(
    ctx: &CreateCampaign,
    now: i64,
    email: String,
    title: String,
    name: String,
    admission_proof_url: String,
    university_name: String,
    matric_number: String,
    course_of_study: String,
    year_of_entry: u16,
    student_image_url: String,
    student_result_image_url: String,
    funding_reason: String,
    project_link: String,
    goal: u64,
    start_at: i64,
    end_at: i64,
) -> (res: Result<Campaign, Errors>)
    ensures
        match creation_rejection(now as int, goal as nat, start_at as int, end_at as int) {
            Some(e) => res == Err::<Campaign, Errors>(e),
            None => res matches Ok(campaign) && campaign@ == created(
                ctx.signer@,
                Description {
                    email: email@,
                    title: title@,
                    name: name@,
                    admission_proof_url: admission_proof_url@,
                    university_name: university_name@,
                    matric_number: matric_number@,
                    course_of_study: course_of_study@,
                    year_of_entry: year_of_entry as nat,
                    student_image_url: student_image_url@,
                    student_result_image_url: student_result_image_url@,
                    funding_reason: funding_reason@,
                    project_link: project_link@,
                },
                goal as nat,
                start_at as int,
                end_at as int,
            ),
        },
        res matches Ok(campaign) ==> campaign@.wf() && campaign.total_raised == 0
            && !campaign.funding_complete && !campaign.funds_claimed,
{
    if start_at < now || end_at <= start_at {
        return Err(Errors::InvalidWindow);
    }
    if goal == 0 {
        return Err(Errors::InvalidGoal);
    }
    Ok(
        Campaign {
            owner: ctx.signer,
            funding_complete: false,
            funds_claimed: false,
            email,
            title,
            name,
            admission_proof_url,
            university_name,
            matric_number,
            course_of_study,
            year_of_entry,
            student_image_url,
            student_result_image_url,
            funding_reason,
            project_link,
            goal,
            total_raised: 0,
            start_time: start_at,
            end_time: end_at,
        },
    )
}

} // verus!
