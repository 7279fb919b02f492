use gravitas::create_creator;
use gravitas::create_event;
use gravitas::error::SocialFiError;
use gravitas::state::Creator;

const OWNER: u64 = 7;
const NOW: i64 = 1_700_000_000;

fn fresh_creator() -> Creator {
    create_creator(OWNER, String::from("alice"), String::from("curves")).unwrap()
}

#[test]
fn create_creator_initializes_the_record() {
    let creator = create_creator(9, String::from("bob"), String::from("hi")).unwrap();
    assert_eq!(creator.user, 9);
    assert_eq!(creator.name, "bob");
    assert_eq!(creator.bio, "hi");
    assert_eq!(creator.current_supply, 1);
    assert_eq!(creator.event_count, 0);
}

#[test]
fn create_creator_accepts_names_at_the_bound() {
    let name: String = "n".repeat(32);
    let bio: String = "b".repeat(256);
    assert!(create_creator(9, name, bio).is_ok());
}

#[test]
fn create_creator_rejects_a_long_name() {
    let name: String = "n".repeat(33);
    let result = create_creator(9, name, String::from("hi"));
    assert_eq!(result.unwrap_err(), SocialFiError::NameTooLong);
}

#[test]
fn create_creator_rejects_a_long_bio() {
    let bio: String = "b".repeat(257);
    let result = create_creator(9, String::from("bob"), bio);
    assert_eq!(result.unwrap_err(), SocialFiError::BioTooLong);
}

#[test]
fn create_event_builds_the_record_and_bumps_the_counter() {
    let mut creator = fresh_creator();

    let event = create_event(&mut creator, OWNER, String::from("launch"), NOW + 60, NOW, 1)
        .unwrap();

    assert_eq!(event.creator, OWNER);
    assert_eq!(event.title, "launch");
    assert_eq!(event.date, NOW + 60);
    assert_eq!(event.required_shares, 1);
    assert_eq!(creator.event_count, 1);
    assert_eq!(creator.current_supply, 1);
}

#[test]
fn event_count_rises_by_one_per_event_and_never_falls() {
    let mut creator = fresh_creator();

    create_event(&mut creator, OWNER, String::from("one"), NOW + 60, NOW, 1).unwrap();
    assert_eq!(creator.event_count, 1);

    // A rejected request leaves the counter where it was.
    let rejected = create_event(&mut creator, OWNER, String::from("stale"), NOW - 1, NOW, 1);
    assert!(rejected.is_err());
    assert_eq!(creator.event_count, 1);

    create_event(&mut creator, OWNER, String::from("two"), NOW + 120, NOW, 1).unwrap();
    assert_eq!(creator.event_count, 2);
}

#[test]
fn create_event_rejects_a_stranger() {
    let mut creator = fresh_creator();

    let result = create_event(&mut creator, OWNER + 1, String::from("x"), NOW + 60, NOW, 1);

    assert_eq!(result.unwrap_err(), SocialFiError::UnauthorizedCreator);
    assert_eq!(creator.event_count, 0);
}

#[test]
fn create_event_rejects_a_long_title() {
    let mut creator = fresh_creator();
    let title: String = "t".repeat(101);

    let result = create_event(&mut creator, OWNER, title, NOW + 60, NOW, 1);

    assert_eq!(result.unwrap_err(), SocialFiError::TitleTooLong);
    assert_eq!(creator.event_count, 0);
}

#[test]
fn create_event_accepts_a_title_at_the_bound() {
    let mut creator = fresh_creator();
    let title: String = "t".repeat(100);
    assert!(create_event(&mut creator, OWNER, title, NOW + 60, NOW, 1).is_ok());
}

#[test]
fn create_event_rejects_a_date_not_in_the_future() {
    let mut creator = fresh_creator();

    let result = create_event(&mut creator, OWNER, String::from("x"), NOW, NOW, 1);

    assert_eq!(result.unwrap_err(), SocialFiError::InvalidDate);
    assert_eq!(creator.event_count, 0);
}

#[test]
fn create_event_rejects_a_requirement_above_the_supply() {
    let mut creator = fresh_creator();

    let result = create_event(&mut creator, OWNER, String::from("x"), NOW + 60, NOW, 2);

    assert_eq!(result.unwrap_err(), SocialFiError::InvalidRequiredShares);
    assert_eq!(creator.event_count, 0);
}

#[test]
fn create_event_rejects_a_zero_requirement() {
    let mut creator = fresh_creator();

    let result = create_event(&mut creator, OWNER, String::from("x"), NOW + 60, NOW, 0);

    assert_eq!(result.unwrap_err(), SocialFiError::InvalidRequiredShares);
    assert_eq!(creator.event_count, 0);
}
