use northfund::{
    cancel_campaign, create_campaign, Campaign, CancelCampaign, CreateCampaign, Errors, Identity,
};

fn party(tag: u8) -> Identity {
    Identity::new([tag; 32])
}

fn create(signer: Identity, now: i64, goal: u64, start: i64, end: i64) -> Result<Campaign, Errors> {
    create_campaign(
        &CreateCampaign { signer },
        now,
        String::from("ada@example.org"),
        String::from("Final year fees"),
        String::from("Ada"),
        String::from("https://example.org/admission.pdf"),
        String::from("Northern University"),
        String::from("NU/17/0042"),
        String::from("Mathematics"),
        2017,
        String::from("https://example.org/ada.png"),
        String::from("https://example.org/result.png"),
        String::from("Tuition for the last two terms"),
        String::from("https://example.org/project"),
        goal,
        start,
        end,
    )
}

#[test]
fn identities_compare_by_their_bytes() {
    let mut bytes = [7u8; 32];
    assert_eq!(Identity::new(bytes), party(7));
    bytes[31] = 8;
    assert_ne!(Identity::new(bytes), party(7));
    bytes[31] = 7;
    bytes[0] = 0;
    assert_ne!(Identity::new(bytes), party(7));
    assert_eq!(Identity::new(bytes).bytes, bytes);
}

#[test]
fn created_campaign_is_empty_and_open_to_neither_flag() {
    let campaign = create(party(1), 1_000, 1_000, 1_010, 1_100).unwrap();
    assert_eq!(campaign.owner, party(1));
    assert_eq!(campaign.goal, 1_000);
    assert!(campaign.goal > 0);
    assert_eq!(campaign.start_time, 1_010);
    assert_eq!(campaign.end_time, 1_100);
    assert!(campaign.start_time < campaign.end_time);
    assert_eq!(campaign.total_raised, 0);
    assert!(!campaign.funding_complete);
    assert!(!campaign.funds_claimed);
}

#[test]
fn created_campaign_stores_its_description() {
    let campaign = create(party(1), 0, 5, 0, 1).unwrap();
    assert_eq!(campaign.email, "ada@example.org");
    assert_eq!(campaign.title, "Final year fees");
    assert_eq!(campaign.name, "Ada");
    assert_eq!(campaign.admission_proof_url, "https://example.org/admission.pdf");
    assert_eq!(campaign.university_name, "Northern University");
    assert_eq!(campaign.matric_number, "NU/17/0042");
    assert_eq!(campaign.course_of_study, "Mathematics");
    assert_eq!(campaign.year_of_entry, 2017);
    assert_eq!(campaign.student_image_url, "https://example.org/ada.png");
    assert_eq!(campaign.student_result_image_url, "https://example.org/result.png");
    assert_eq!(campaign.funding_reason, "Tuition for the last two terms");
    assert_eq!(campaign.project_link, "https://example.org/project");
}

#[test]
fn creation_may_start_at_the_present_moment() {
    let campaign = create(party(1), 500, 1, 500, 501).unwrap();
    assert_eq!(campaign.start_time, 500);
    assert_eq!(campaign.end_time, 501);
}

#[test]
fn creation_rejects_a_start_in_the_past() {
    assert_eq!(create(party(1), 500, 1_000, 499, 600), Err(Errors::InvalidWindow));
    assert_eq!(create(party(1), i64::MAX, 1_000, i64::MIN, 0), Err(Errors::InvalidWindow));
}

#[test]
fn creation_rejects_an_end_that_is_not_after_the_start() {
    assert_eq!(create(party(1), 500, 1_000, 600, 600), Err(Errors::InvalidWindow));
    assert_eq!(create(party(1), 500, 1_000, 600, 599), Err(Errors::InvalidWindow));
    assert_eq!(create(party(1), 500, 1_000, i64::MAX, i64::MAX), Err(Errors::InvalidWindow));
}

#[test]
fn creation_rejects_a_goal_of_zero() {
    assert_eq!(create(party(1), 500, 0, 510, 600), Err(Errors::InvalidGoal));
}

#[test]
fn creation_looks_at_the_window_before_the_goal() {
    assert_eq!(create(party(1), 500, 0, 499, 600), Err(Errors::InvalidWindow));
    assert_eq!(create(party(1), 500, 0, 510, 510), Err(Errors::InvalidWindow));
}

#[test]
fn creation_takes_the_widest_window_and_the_largest_goal() {
    let campaign = create(party(9), i64::MIN, u64::MAX, i64::MIN, i64::MAX).unwrap();
    assert_eq!(campaign.goal, u64::MAX);
    assert_eq!(campaign.start_time, i64::MIN);
    assert_eq!(campaign.end_time, i64::MAX);
}

#[test]
fn owner_cancels_before_the_start() {
    let campaign = create(party(1), 1_000, 1_000, 1_010, 1_100).unwrap();
    let mut ctx = CancelCampaign { admin: party(1), campaign: Some(campaign) };
    assert_eq!(cancel_campaign(&mut ctx, 1_009), Ok(()));
    assert_eq!(ctx.campaign, None);
    assert_eq!(ctx.admin, party(1));
}

#[test]
fn cancellation_at_or_after_the_start_is_too_late() {
    let campaign = create(party(1), 1_000, 1_000, 1_010, 1_100).unwrap();
    let mut ctx = CancelCampaign { admin: party(1), campaign: Some(campaign.clone()) };
    assert_eq!(cancel_campaign(&mut ctx, 1_010), Err(Errors::AlreadyStarted));
    assert_eq!(ctx.campaign, Some(campaign.clone()));
    assert_eq!(cancel_campaign(&mut ctx, 1_011), Err(Errors::AlreadyStarted));
    assert_eq!(cancel_campaign(&mut ctx, 5_000), Err(Errors::AlreadyStarted));
    assert_eq!(cancel_campaign(&mut ctx, i64::MAX), Err(Errors::AlreadyStarted));
    assert_eq!(ctx.campaign, Some(campaign));
}

#[test]
fn only_the_owner_cancels() {
    let campaign = create(party(1), 1_000, 1_000, 1_010, 1_100).unwrap();
    let mut ctx = CancelCampaign { admin: party(2), campaign: Some(campaign.clone()) };
    assert_eq!(cancel_campaign(&mut ctx, 1_005), Err(Errors::Unauthorized));
    assert_eq!(ctx.campaign, Some(campaign));
}

#[test]
fn cancellation_asks_who_calls_before_it_asks_when() {
    let campaign = create(party(1), 1_000, 1_000, 1_010, 1_100).unwrap();
    let mut ctx = CancelCampaign { admin: party(2), campaign: Some(campaign) };
    assert_eq!(cancel_campaign(&mut ctx, 2_000), Err(Errors::Unauthorized));
}

#[test]
fn a_cancelled_campaign_cannot_be_cancelled_again() {
    let campaign = create(party(1), 1_000, 1_000, 1_010, 1_100).unwrap();
    let mut ctx = CancelCampaign { admin: party(1), campaign: Some(campaign) };
    assert_eq!(cancel_campaign(&mut ctx, 1_000), Ok(()));
    assert_eq!(cancel_campaign(&mut ctx, 1_000), Err(Errors::Unauthorized));
    assert_eq!(ctx.campaign, None);
}
