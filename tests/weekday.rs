use declutter::Weekday;

#[test]
fn deserialize_weekday() {
    assert_eq!(Weekday::from_str("monday"), Ok(Weekday::Monday));
    assert_eq!(Weekday::from_str("tuesday"), Ok(Weekday::Tuesday));
    assert_eq!(Weekday::from_str("wednesday"), Ok(Weekday::Wednesday));
    assert_eq!(Weekday::from_str("thursday"), Ok(Weekday::Thursday));
    assert_eq!(Weekday::from_str("friday"), Ok(Weekday::Friday));
    assert_eq!(Weekday::from_str("saturday"), Ok(Weekday::Saturday));
    assert_eq!(Weekday::from_str("sunday"), Ok(Weekday::Sunday));
    assert!(Weekday::from_str("invalid").is_err());
}

#[test]
fn serialize_weekday() {
    assert_eq!(Weekday::Monday.as_str(), "monday");
    assert_eq!(Weekday::Tuesday.as_str(), "tuesday");
    assert_eq!(Weekday::Wednesday.as_str(), "wednesday");
    assert_eq!(Weekday::Thursday.as_str(), "thursday");
    assert_eq!(Weekday::Friday.as_str(), "friday");
    assert_eq!(Weekday::Saturday.as_str(), "saturday");
    assert_eq!(Weekday::Sunday.as_str(), "sunday");
}

#[test]
fn weekday_as_str() {
    assert_eq!(Weekday::Monday.as_str(), "monday");
    assert_eq!(Weekday::Tuesday.as_str(), "tuesday");
}

#[test]
fn weekday_as_short_str() {
    assert_eq!(Weekday::Monday.as_short_str(), "Mon");
    assert_eq!(Weekday::Tuesday.as_short_str(), "Tue");
    assert_eq!(Weekday::Wednesday.as_short_str(), "Wed");
}

#[test]
fn weekday_as_short_str_uppercase() {
    assert_eq!(Weekday::Monday.as_short_str_uppercase(), "MON");
    assert_eq!(Weekday::Tuesday.as_short_str_uppercase(), "TUE");
    assert_eq!(Weekday::Wednesday.as_short_str_uppercase(), "WED");
}

#[test]
fn weekday_from_short_str() {
    assert_eq!(Weekday::from_short_str("Mon"), Some(Weekday::Monday));
    assert_eq!(Weekday::from_short_str("Tue"), Some(Weekday::Tuesday));
    assert_eq!(Weekday::from_short_str("Wed"), Some(Weekday::Wednesday));
    assert_eq!(Weekday::from_short_str("Weds"), None);
}

#[test]
fn weekday_from_short_str_uppercase() {
    assert_eq!(
        Weekday::from_short_str_uppercase("MON"),
        Some(Weekday::Monday)
    );
    assert_eq!(
        Weekday::from_short_str_uppercase("TUE"),
        Some(Weekday::Tuesday)
    );
    assert_eq!(
        Weekday::from_short_str_uppercase("WED"),
        Some(Weekday::Wednesday)
    );
    assert_eq!(Weekday::from_short_str_uppercase("WEDS"), None);
}

#[test]
fn weekday_next() {
    assert_eq!(Weekday::Monday.next(), Weekday::Tuesday);
    assert_eq!(Weekday::Tuesday.next(), Weekday::Wednesday);
    assert_eq!(Weekday::Sunday.next(), Weekday::Monday);
}

#[test]
fn weekday_previous() {
    assert_eq!(Weekday::Monday.previous(), Weekday::Sunday);
    assert_eq!(Weekday::Tuesday.previous(), Weekday::Monday);
    assert_eq!(Weekday::Sunday.previous(), Weekday::Saturday);
}

#[test]
fn weekday_next_n() {
    assert_eq!(Weekday::Monday.next_n(0), Weekday::Monday);
    assert_eq!(Weekday::Monday.next_n(1), Weekday::Tuesday);
    assert_eq!(Weekday::Monday.next_n(2), Weekday::Wednesday);
    assert_eq!(Weekday::Monday.next_n(3), Weekday::Thursday);
    assert_eq!(Weekday::Monday.next_n(4), Weekday::Friday);
    assert_eq!(Weekday::Monday.next_n(5), Weekday::Saturday);
    assert_eq!(Weekday::Monday.next_n(6), Weekday::Sunday);
    assert_eq!(Weekday::Monday.next_n(7), Weekday::Monday);
    assert_eq!(Weekday::Monday.next_n(8), Weekday::Tuesday);
}

#[test]
fn weekday_previous_n() {
    assert_eq!(Weekday::Monday.previous_n(0), Weekday::Monday);
    assert_eq!(Weekday::Monday.previous_n(1), Weekday::Sunday);
    assert_eq!(Weekday::Monday.previous_n(2), Weekday::Saturday);
    assert_eq!(Weekday::Monday.previous_n(3), Weekday::Friday);
    assert_eq!(Weekday::Monday.previous_n(4), Weekday::Thursday);
    assert_eq!(Weekday::Monday.previous_n(5), Weekday::Wednesday);
    assert_eq!(Weekday::Monday.previous_n(6), Weekday::Tuesday);
    assert_eq!(Weekday::Monday.previous_n(7), Weekday::Monday);
    assert_eq!(Weekday::Monday.previous_n(8), Weekday::Sunday);
}

#[test]
fn weekday_range() {
    assert_eq!(
        Weekday::range(Weekday::Monday, Weekday::Monday),
        vec![Weekday::Monday]
    );
    assert_eq!(
        Weekday::range(Weekday::Monday, Weekday::Tuesday),
        vec![Weekday::Monday, Weekday::Tuesday]
    );
    assert_eq!(
        Weekday::range(Weekday::Monday, Weekday::Wednesday),
        vec![Weekday::Monday, Weekday::Tuesday, Weekday::Wednesday,]
    );
    assert_eq!(
        Weekday::range(Weekday::Monday, Weekday::Thursday),
        vec![
            Weekday::Monday,
            Weekday::Tuesday,
            Weekday::Wednesday,
            Weekday::Thursday,
        ]
    );
    assert_eq!(
        Weekday::range(Weekday::Monday, Weekday::Friday),
        vec![
            Weekday::Monday,
            Weekday::Tuesday,
            Weekday::Wednesday,
            Weekday::Thursday,
            Weekday::Friday,
        ]
    );
    assert_eq!(
        Weekday::range(Weekday::Monday, Weekday::Saturday),
        vec![
            Weekday::Monday,
            Weekday::Tuesday,
            Weekday::Wednesday,
            Weekday::Thursday,
            Weekday::Friday,
            Weekday::Saturday,
        ]
    );
    assert_eq!(
        Weekday::range(Weekday::Monday, Weekday::Sunday),
        vec![
            Weekday::Monday,
            Weekday::Tuesday,
            Weekday::Wednesday,
            Weekday::Thursday,
            Weekday::Friday,
            Weekday::Saturday,
            Weekday::Sunday,
        ]
    );
    assert_eq!(
        Weekday::range(Weekday::Monday, Weekday::Monday),
        vec![Weekday::Monday]
    );
    assert_eq!(
        Weekday::range(Weekday::Tuesday, Weekday::Monday),
        vec![
            Weekday::Tuesday,
            Weekday::Wednesday,
            Weekday::Thursday,
            Weekday::Friday,
            Weekday::Saturday,
            Weekday::Sunday,
            Weekday::Monday,
        ]
    );
    assert_eq!(
        Weekday::range(Weekday::Wednesday, Weekday::Monday),
        vec![
            Weekday::Wednesday,
            Weekday::Thursday,
            Weekday::Friday,
            Weekday::Saturday,
            Weekday::Sunday,
            Weekday::Monday,
        ]
    );
    assert_eq!(
        Weekday::range(Weekday::Thursday, Weekday::Monday),
        vec![
            Weekday::Thursday,
            Weekday::Friday,
            Weekday::Saturday,
            Weekday::Sunday,
            Weekday::Monday,
        ]
    );
}

