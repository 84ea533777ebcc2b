//! Listing and removing dynamic registrations on the command line.

use crate::text::{concat, optional_text, texts};
use chrono::{DateTime, Utc};
use vstd::prelude::*;

verus! {

/// A day of the proleptic Gregorian calendar.
pub struct Date {
    pub year: int,
    pub month: int,
    pub day: int,
}

/// Whether a year has a 29th of February.
pub open spec fn is_leap_year(year: int) -> bool {
    year % 4 == 0 && (year % 100 != 0 || year % 400 == 0)
}

/// How many days a month has.
pub open spec fn days_in_month(year: int, month: int) -> int {
    if month == 2 {
        if is_leap_year(year) {
            29
        } else {
            28
        }
    } else if month == 4 || month == 6 || month == 9 || month == 11 {
        30
    } else {
        31
    }
}

/// How many days of the year come before a month.
pub open spec fn days_before_month(year: int, month: int) -> int
    decreases month,
{
    if month <= 1 {
        0
    } else {
        days_before_month(year, month - 1) + days_in_month(year, month - 1)
    }
}

/// How many days come before a year, counted from the year 0.
pub open spec fn days_before_year(year: int) -> int {
    365 * year + (year + 3) / 4 - (year + 99) / 100 + (year + 399) / 400
}

impl Date {
    /// Whether the calendar has this day.
    pub open spec fn is_in_calendar(self) -> bool {
        1 <= self.month <= 12 && 1 <= self.day <= days_in_month(self.year, self.month)
    }

    /// The number of the day, where 1970-01-01 has the number 0.
    pub open spec fn number(self) -> int {
        days_before_year(self.year) + days_before_month(self.year, self.month) + self.day - 1
            - 719528
    }
}

/// A number in decimal, filled up with zeros to `width` digits.
pub open spec fn padded(n: nat, width: nat) -> Seq<char>
    decreases n + width,
{
    if n == 0 && width == 0 {
        seq![]
    } else {
        padded(
            n / 10,
            (if width > 0 {
                width - 1
            } else {
                0
            }) as nat,
        ).push((n % 10 + '0' as int) as char)
    }
}

/// A year in decimal. Years without four digits have a sign.
pub open spec fn year_text(year: int) -> Seq<char> {
    if year < 0 {
        seq!['-'] + padded((-year) as nat, 4)
    } else if year > 9999 {
        seq!['+'] + padded(year as nat, 4)
    } else {
        padded(year as nat, 4)
    }
}

/// The time that `seconds` after the start of 1970 fall on, to the minute,
/// where `date` is the day.
pub open spec fn time_text(date: Date, seconds: int) -> Seq<char> {
    let of_day = seconds % 86400;
    year_text(date.year) + seq!['-'] + padded(date.month as nat, 2) + seq!['-'] + padded(
        date.day as nat,
        2,
    ) + seq![' '] + padded((of_day / 3600) as nat, 2) + seq![':'] + padded(
        (of_day / 60 % 60) as nat,
        2,
    ) + seq![' ', 'U', 'T', 'C']
}

/// Whether `date` is the day of the timestamp `seconds`, and one that can be
/// represented.
pub open spec fn is_day_of(date: Date, seconds: int) -> bool {
    date.is_in_calendar() && date.number() == seconds / 86400 && -262143 <= date.year <= 262142
}

/// Calls `chrono::DateTime::from_timestamp` and formats the time with
/// `DateTime::format`. Claimed: there is a time just if its year is between
/// -262143 and 262142, and it is written as year, month, day, hour and minute.
#[verifier::external_body]
fn format_timestamp(seconds: i64) -> (res: Option<String>)
    ensures
        match res {
            Some(text) => exists|date: Date| #[trigger]
                is_day_of(date, seconds as int) && text@ == time_text(date, seconds as int),
            None => forall|date: Date| !#[trigger] is_day_of(date, seconds as int),
        },
{
    let time = DateTime::<Utc>::from_timestamp(seconds, 0)?;
    Some(time.format("%Y-%m-%d %H:%M UTC").to_string())
}

/// When something happened, to the minute.
pub struct Timestamp {
    text: String,
}

impl View for Timestamp {
    type V = Seq<char>;

    closed spec fn view(&self) -> Seq<char> {
        self.text@
    }
}

impl Timestamp {
    /// From the seconds since the start of 1970. The years -262143 to 262142
    /// can be represented.
    pub fn from_unix(seconds: i64) -> (res: Option<Timestamp>)
        ensures
            match res {
                Some(time) => exists|date: Date| #[trigger]
                    is_day_of(date, seconds as int) && time@ == time_text(date, seconds as int),
                None => forall|date: Date| !#[trigger] is_day_of(date, seconds as int),
            },
    {
        match format_timestamp(seconds) {
            Some(text) => Some(Timestamp { text }),
            None => None,
        }
    }

    /// The time in words.
    pub fn as_str(&self) -> (res: &str)
        ensures
            res@ == self@,
    {
        self.text.as_str()
    }
}

/// A registration, as it is listed.
pub struct Registration {
    pub issuer: String,
    pub client_id: String,
    pub platform_name: Option<String>,
    pub deployment_ids: Vec<String>,
    pub created: Timestamp,
}

/// [`Registration`] with texts in place of strings.
pub struct RegistrationModel {
    pub issuer: Seq<char>,
    pub client_id: Seq<char>,
    pub platform_name: Option<Seq<char>>,
    pub deployment_ids: Seq<Seq<char>>,
    pub created: Seq<char>,
}

impl View for Registration {
    type V = RegistrationModel;

    open spec fn view(&self) -> RegistrationModel {
        RegistrationModel {
            issuer: self.issuer@,
            client_id: self.client_id@,
            platform_name: optional_text(self.platform_name),
            deployment_ids: texts(self.deployment_ids@),
            created: self.created@,
        }
    }
}

/// The models of a list of registrations.
pub open spec fn models(registrations: Seq<Registration>) -> Seq<RegistrationModel> {
    Seq::new(registrations.len(), |i: int| registrations[i]@)
}

/// Texts with `separator` between.
pub open spec fn joined(parts: Seq<Seq<char>>, separator: Seq<char>) -> Seq<char>
    decreases parts.len(),
{
    if parts.len() == 0 {
        seq![]
    } else if parts.len() == 1 {
        parts[0]
    } else {
        joined(parts.drop_last(), separator) + separator + parts.last()
    }
}

impl RegistrationModel {
    /// The lines for one registration.
    pub open spec fn lines(self) -> Seq<char> {
        "- "@ + self.issuer + "\n"@ + (match self.platform_name {
            Some(name) => "    platform: "@ + name + "\n"@,
            None => seq![],
        }) + "    client_id: "@ + self.client_id + "\n    deployments: ["@ + joined(
            self.deployment_ids,
            ", "@,
        ) + "]\n    registered: "@ + self.created + "\n"@
    }
}

/// The lines for all registrations, one after the other.
pub open spec fn all_lines(registrations: Seq<RegistrationModel>) -> Seq<char>
    decreases registrations.len(),
{
    if registrations.len() == 0 {
        seq![]
    } else {
        all_lines(registrations.drop_last()) + registrations.last().lines()
    }
}

/// What is printed for a list of registrations.
pub open spec fn listing(registrations: Seq<RegistrationModel>) -> Seq<char> {
    if registrations.len() == 0 {
        "No dynamically registered LTI platforms.\n"@
    } else {
        all_lines(registrations)
    }
}

/// Joins strings with `separator` between.
pub fn join(parts: &Vec<String>, separator: &str) -> (res: String)
    ensures
        res@ == joined(texts(parts@), separator@),
{
    let ghost all = texts(parts@);
    let mut res = "".to_owned();
    proof {
        reveal_strlit("");
        assert(res@ =~= seq![]);
    }
    let mut i: usize = 0;
    while i < parts.len()
        invariant
            i <= parts@.len(),
            all == texts(parts@),
            res@ == joined(all.take(i as int), separator@),
        decreases parts@.len() - i,
    {
        let ghost front = all.take(i as int + 1);
        assert(front.drop_last() =~= all.take(i as int));
        assert(front.last() == parts@[i as int]@);
        if i > 0 {
            res.append(separator);
        }
        res.append(parts[i].as_str());
        assert(i == 0 ==> res@ =~= parts@[0]@);
        i += 1;
    }
    assert(all.take(i as int) =~= all);
    res
}

/// The lines for one registration.
pub fn registration_lines(registration: &Registration) -> (res: String)
    ensures
        res@ == registration@.lines(),
{
    let mut res = concat("- ", registration.issuer.as_str());
    res.append("\n");
    match &registration.platform_name {
        Some(name) => {
            res.append("    platform: ");
            res.append(name.as_str());
            res.append("\n");
        },
        None => {},
    }
    res.append("    client_id: ");
    res.append(registration.client_id.as_str());
    res.append("\n    deployments: [");
    res.append(join(&registration.deployment_ids, ", ").as_str());
    res.append("]\n    registered: ");
    res.append(registration.created.as_str());
    res.append("\n");
    assert(res@ =~= registration@.lines());
    res
}

/// Lists registrations: what is printed, line by line.
pub fn list(registrations: &Vec<Registration>) -> (res: String)
    ensures
        res@ == listing(models(registrations@)),
{
    if registrations.len() == 0 {
        return "No dynamically registered LTI platforms.\n".to_owned();
    }
    let ghost all = models(registrations@);
    let mut res = "".to_owned();
    proof {
        reveal_strlit("");
        assert(res@ =~= seq![]);
    }
    let mut i: usize = 0;
    while i < registrations.len()
        invariant
            i <= registrations@.len(),
            all == models(registrations@),
            res@ == all_lines(all.take(i as int)),
        decreases registrations@.len() - i,
    {
        let ghost front = all.take(i as int + 1);
        assert(front.drop_last() =~= all.take(i as int));
        assert(front.last() == registrations@[i as int]@);
        res.append(registration_lines(&registrations[i]).as_str());
        i += 1;
    }
    assert(all.take(i as int) =~= all);
    res
}

/// Reports on the removal of an issuer, after `affected` registrations were
/// deleted: a line to print, or the error if there was none to delete.
pub fn removal(affected: u64, issuer: &str) -> (res: Result<String, String>)
    ensures
        match res {
            Ok(line) => affected != 0 && line@ == "Removed the registration of '"@ + issuer@
                + "'.\n"@,
            Err(error) => affected == 0 && error@ == "no dynamic registration with issuer '"@
                + issuer@ + "' (see `list`)"@,
        },
{
    if affected == 0 {
        let mut error = concat("no dynamic registration with issuer '", issuer);
        error.append("' (see `list`)");
        return Err(error);
    }
    let mut line = concat("Removed the registration of '", issuer);
    line.append("'.\n");
    Ok(line)
}

proof fn steps_of_a_quotient(n: int, divisor: int)
    requires
        divisor == 4 || divisor == 100 || divisor == 400,
    ensures
        (n + divisor) / divisor - (n + divisor - 1) / divisor == (if n % divisor == 0 {
            1int
        } else {
            0
        }),
{
}

proof fn year_has_its_days(year: int)
    ensures
        days_before_year(year + 1) - days_before_year(year) == 337 + days_in_month(year, 2),
{
    steps_of_a_quotient(year, 4);
    steps_of_a_quotient(year, 100);
    steps_of_a_quotient(year, 400);
    assert(year % 400 == 0 ==> year % 100 == 0);
    assert(year % 100 == 0 ==> year % 4 == 0);
}

proof fn months_in_days(year: int)
    ensures
        ({
            let feb = days_in_month(year, 2);
            &&& days_before_month(year, 1) == 0
            &&& days_before_month(year, 2) == 31
            &&& days_before_month(year, 3) == 31 + feb
            &&& days_before_month(year, 4) == 62 + feb
            &&& days_before_month(year, 5) == 92 + feb
            &&& days_before_month(year, 6) == 123 + feb
            &&& days_before_month(year, 7) == 153 + feb
            &&& days_before_month(year, 8) == 184 + feb
            &&& days_before_month(year, 9) == 215 + feb
            &&& days_before_month(year, 10) == 245 + feb
            &&& days_before_month(year, 11) == 276 + feb
            &&& days_before_month(year, 12) == 306 + feb
        }),
{
    let feb = days_in_month(year, 2);
    assert(days_before_month(year, 1) == 0);
    assert(days_before_month(year, 2) == 31);
    assert(days_before_month(year, 3) == 31 + feb);
    assert(days_before_month(year, 4) == 62 + feb);
    assert(days_before_month(year, 5) == 92 + feb);
    assert(days_before_month(year, 6) == 123 + feb);
    assert(days_before_month(year, 7) == 153 + feb);
    assert(days_before_month(year, 8) == 184 + feb);
    assert(days_before_month(year, 9) == 215 + feb);
    assert(days_before_month(year, 10) == 245 + feb);
    assert(days_before_month(year, 11) == 276 + feb);
    assert(days_before_month(year, 12) == 306 + feb);
}

proof fn month_is_below_year(year: int, month: int)
    requires
        1 <= month <= 12,
    ensures
        0 <= days_before_month(year, month),
        days_before_month(year, month) + days_in_month(year, month) <= days_before_year(year + 1)
            - days_before_year(year),
{
    months_in_days(year);
    year_has_its_days(year);
}

proof fn years_follow_each_other(a: int, b: int)
    requires
        a <= b,
    ensures
        days_before_year(a) <= days_before_year(b),
    decreases b - a,
{
    if a < b {
        years_follow_each_other(a, b - 1);
        year_has_its_days(b - 1);
    }
}

proof fn months_follow_each_other(year: int, a: int, b: int)
    requires
        1 <= a < b <= 12,
    ensures
        days_before_month(year, a) + days_in_month(year, a) <= days_before_month(year, b),
    decreases b,
{
    if a + 1 < b {
        months_follow_each_other(year, a, b - 1);
    }
}

/// The number of a day belongs to that day alone, so a timestamp is written in
/// one way only.
pub proof fn days_are_numbered_uniquely(a: Date, b: Date)
    requires
        a.is_in_calendar(),
        b.is_in_calendar(),
        a.number() == b.number(),
    ensures
        a == b,
{
    month_is_below_year(a.year, a.month);
    month_is_below_year(b.year, b.month);
    if a.year < b.year {
        years_follow_each_other(a.year + 1, b.year);
    } else if b.year < a.year {
        years_follow_each_other(b.year + 1, a.year);
    } else if a.month < b.month {
        months_follow_each_other(a.year, a.month, b.month);
    } else if b.month < a.month {
        months_follow_each_other(a.year, b.month, a.month);
    }
}

/// What is listed for some registrations does not depend on the others.
pub proof fn registrations_are_listed_one_by_one(
    a: Seq<RegistrationModel>,
    b: Seq<RegistrationModel>,
)
    ensures
        all_lines(a + b) == all_lines(a) + all_lines(b),
    decreases b.len(),
{
    if b.len() == 0 {
        assert(a + b =~= a);
    } else {
        assert((a + b).drop_last() =~= a + b.drop_last());
        registrations_are_listed_one_by_one(a, b.drop_last());
    }
}

/// Joining takes one text as it is, and puts the separator between all others.
pub proof fn separator_stands_between(
    a: Seq<Seq<char>>,
    b: Seq<Seq<char>>,
    part: Seq<char>,
    separator: Seq<char>,
)
    ensures
        joined(seq![], separator) == Seq::<char>::empty(),
        joined(seq![part], separator) == part,
        a.len() > 0 && b.len() > 0 ==> joined(a + b, separator) == joined(a, separator) + separator
            + joined(b, separator),
    decreases b.len(),
{
    if a.len() > 0 && b.len() > 0 {
        assert((a + b).drop_last() =~= a + b.drop_last());
        assert((a + b).last() == b.last());
        if b.len() == 1 {
            assert(a + b.drop_last() =~= a);
        } else {
            separator_stands_between(a, b.drop_last(), part, separator);
            assert(joined(a + b, separator) =~= joined(a, separator) + separator + joined(
                b,
                separator,
            ));
        }
    }
}

/// One line of a listing.
pub open spec fn line(label: Seq<char>, value: Seq<char>) -> Seq<char> {
    label + value + seq!['\n']
}

/// A registration is listed in five lines, or in four if it has no name: issuer,
/// name, client, deployments and time, each in full.
pub proof fn every_field_is_listed(registration: RegistrationModel)
    ensures
        registration.lines() == line("- "@, registration.issuer) + (
        match registration.platform_name {
            Some(name) => line("    platform: "@, name),
            None => seq![],
        }) + line("    client_id: "@, registration.client_id) + line(
            "    deployments: ["@,
            joined(registration.deployment_ids, ", "@) + seq![']'],
        ) + line("    registered: "@, registration.created),
{
    reveal_strlit("\n");
    reveal_strlit("\n    deployments: [");
    reveal_strlit("    deployments: [");
    reveal_strlit("]\n    registered: ");
    reveal_strlit("    registered: ");
    assert("\n"@ =~= seq!['\n']);
    assert("\n    deployments: ["@ =~= seq!['\n'] + "    deployments: ["@);
    assert("]\n    registered: "@ =~= seq![']', '\n'] + "    registered: "@);
    assert(registration.lines() =~= line("- "@, registration.issuer) + (
    match registration.platform_name {
        Some(name) => line("    platform: "@, name),
        None => seq![],
    }) + line("    client_id: "@, registration.client_id) + line(
        "    deployments: ["@,
        joined(registration.deployment_ids, ", "@) + seq![']'],
    ) + line("    registered: "@, registration.created));
}

/// A list that is not empty is what its first and its other registrations give,
/// one after the other; only an empty list says that there are none.
pub proof fn listing_is_the_registrations_in_order(
    registration: RegistrationModel,
    others: Seq<RegistrationModel>,
)
    ensures
        listing(seq![]) == "No dynamically registered LTI platforms.\n"@,
        listing(seq![registration]) == registration.lines(),
        others.len() > 0 ==> listing(seq![registration] + others) == registration.lines()
            + listing(others),
{
    reveal_with_fuel(all_lines, 2);
    assert(seq![registration].drop_last() =~= seq![]);
    assert(all_lines(seq![registration]) =~= registration.lines());
    registrations_are_listed_one_by_one(seq![registration], others);
}

/// The model of a registration holds each field as it is, and the models of
/// several stand in their order.
pub proof fn model_of_a_listed_registration_holds_each_field(
    registrations: Seq<Registration>,
    i: int,
)
    requires
        0 <= i < registrations.len(),
    ensures
        models(registrations).len() == registrations.len(),
        ({
            let model = models(registrations)[i];
            &&& model.issuer == registrations[i].issuer@
            &&& model.client_id == registrations[i].client_id@
            &&& model.platform_name == optional_text(registrations[i].platform_name)
            &&& model.deployment_ids == texts(registrations[i].deployment_ids@)
            &&& model.created == registrations[i].created@
        }),
{
}

} // verus!
