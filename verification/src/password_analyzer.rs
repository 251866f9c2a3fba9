//! The report on a generated password: its strength in words and the time it
//! would take to guess it, laid out as tables.
//!
//! The estimate itself comes from outside; this module takes it as plain
//! values, names the strength and decides what stands in which table.

use tabled::builder::Builder;
use tabled::settings::{Panel, Style};
use vstd::prelude::*;

verus! {

/// `tabled::builder::Builder`, carried as it is.
#[verifier::external_type_specification]
#[verifier::external_body]
pub struct ExBuilder(Builder);

/// The records pushed into a `tabled` builder so far, each a list of cells.
pub uninterp spec fn records_of(builder: Builder) -> Seq<Seq<Seq<char>>>;

/// The text of the table that `tabled` lays out from `records` in its modern
/// style, under a panel that holds `header`.
pub uninterp spec fn table_text(header: Seq<char>, records: Seq<Seq<Seq<char>>>) -> Seq<char>;

/// The cells of a record, as sequences of characters.
pub open spec fn cells(record: Seq<&str>) -> Seq<Seq<char>> {
    Seq::new(record.len(), |i: int| record[i]@)
}

/// Calls `Builder::new`.
///
/// Trusted: the new builder holds no record.
#[verifier::external_body]
fn new_builder() -> (builder: Builder)
    ensures
        records_of(builder) == Seq::<Seq<Seq<char>>>::empty(),
{
    Builder::new()
}

/// Calls `Builder::push_record`.
///
/// Trusted: the record is added after those already there.
#[verifier::external_body]
fn push_record(builder: &mut Builder, record: Vec<&str>)
    ensures
        records_of(*final(builder)) == records_of(*old(builder)).push(cells(record@)),
{
    builder.push_record(record);
}

/// Builds the table with `Builder::build`, gives it a header panel
/// (`Panel::header`) and the modern style (`Style::modern`) through
/// `Table::with`, and formats it with `to_string`.
///
/// Trusted: the text depends on the header and the records alone.
#[verifier::external_body]
fn render(builder: Builder, header: &str) -> (text: String)
    requires
        records_of(builder).len() > 0,
        records_of(builder)[0].len() > 0,
    ensures
        text@ == table_text(header@, records_of(builder)),
{
    builder.build().with(Panel::header(header)).with(Style::modern()).to_string()
}

/// How strong a password is, from the weakest to the strongest.
#[derive(Clone, Copy, Debug, PartialEq, Eq)]
pub enum PasswordStrength {
    VeryWeak,
    Weak,
    Good,
    Strong,
    VeryStrong,
}

impl PasswordStrength {
    /// The strength that a score from 0 to 4 stands for.
    pub open spec fn of_score(score: u8) -> PasswordStrength {
        if score == 0 {
            PasswordStrength::VeryWeak
        } else if score == 1 {
            PasswordStrength::Weak
        } else if score == 2 {
            PasswordStrength::Good
        } else if score == 3 {
            PasswordStrength::Strong
        } else {
            PasswordStrength::VeryStrong
        }
    }

    /// The strength in words.
    pub open spec fn label(self) -> Seq<char> {
        match self {
            PasswordStrength::VeryWeak => "very weak"@,
            PasswordStrength::Weak => "weak"@,
            PasswordStrength::Good => "good"@,
            PasswordStrength::Strong => "strong"@,
            PasswordStrength::VeryStrong => "very strong"@,
        }
    }

    /// The strength that `score` stands for. A score is at most 4.
    pub fn from(score: u8) -> (strength: PasswordStrength)
        requires
            score <= 4,
        ensures
            strength == PasswordStrength::of_score(score),
    {
        match score {
            0 => PasswordStrength::VeryWeak,
            1 => PasswordStrength::Weak,
            2 => PasswordStrength::Good,
            3 => PasswordStrength::Strong,
            _ => PasswordStrength::VeryStrong,
        }
    }

    /// The strength in words.
    pub fn to_string(&self) -> (text: String)
        ensures
            text@ == self.label(),
    {
        let strength = match self {
            PasswordStrength::VeryWeak => "very weak",
            PasswordStrength::Weak => "weak",
            PasswordStrength::Good => "good",
            PasswordStrength::Strong => "strong",
            PasswordStrength::VeryStrong => "very strong",
        };
        strength.to_string()
    }
}

/// How long guessing a password would take at four rates of attack, each as
/// a readable duration.
pub struct CrackTimes {
    /// At 100 attempts an hour: an online service that throttles.
    pub online_throttling_100_per_hour: String,
    /// At 10 attempts a second: an online service that does not throttle.
    pub online_no_throttling_10_per_second: String,
    /// At 10^4 attempts a second: offline, against a slow hash.
    pub offline_slow_hashing_1e4_per_second: String,
    /// At 10^10 attempts a second: offline, against a fast hash.
    pub offline_fast_hashing_1e10_per_second: String,
}

/// A strength estimate of a password, as plain values.
pub struct Entropy {
    /// The overall score, from 0 to 4.
    pub score: u8,
    /// The order of magnitude of the number of guesses, as text.
    pub guesses_log10: String,
    /// The times to guess the password.
    pub crack_times: CrackTimes,
}

/// A password with its strength estimate, ready to be reported.
pub struct PasswordAnalysis<'a> {
    password: &'a str,
    strength: PasswordStrength,
    guesses_log10: String,
    crack_times: CrackTimes,
}

impl<'a> PasswordAnalysis<'a> {
    /// The password that was analysed.
    pub closed spec fn password(&self) -> Seq<char> {
        self.password@
    }

    /// The strength found.
    pub closed spec fn strength(&self) -> PasswordStrength {
        self.strength
    }

    /// The order of magnitude of the number of guesses, as text.
    pub closed spec fn guesses(&self) -> Seq<char> {
        self.guesses_log10@
    }

    /// The time to guess the password at each of the four rates, slowest
    /// attack first.
    pub closed spec fn crack_times(&self) -> Seq<Seq<char>> {
        seq![
            self.crack_times.online_throttling_100_per_hour@,
            self.crack_times.online_no_throttling_10_per_second@,
            self.crack_times.offline_slow_hashing_1e4_per_second@,
            self.crack_times.offline_fast_hashing_1e10_per_second@,
        ]
    }

    /// The one record of the table that shows the password.
    pub open spec fn password_records(&self) -> Seq<Seq<Seq<char>>> {
        seq![seq![self.password()]]
    }

    /// The records of the strength table: the strength in words, then the
    /// guesses.
    pub open spec fn analysis_records(&self) -> Seq<Seq<Seq<char>>> {
        seq![seq!["Strength"@, self.strength().label()], seq!["Guesses"@, self.guesses()]]
    }

    /// The records of the crack time table: one for each rate of attack,
    /// slowest attack first.
    pub open spec fn crack_time_records(&self) -> Seq<Seq<Seq<char>>> {
        seq![
            seq!["100 attempts/hour"@, self.crack_times()[0]],
            seq!["10 attempts/second"@, self.crack_times()[1]],
            seq!["10^4 attempts/second"@, self.crack_times()[2]],
            seq!["10^10 attempts/second"@, self.crack_times()[3]],
        ]
    }

    /// Joins a password and its estimate. There is no analysis for a score
    /// above 4.
    pub fn new(password: &'a str, entropy: Entropy) -> (analysis: Option<PasswordAnalysis<'a>>)
        ensures
            analysis is Some <==> entropy.score <= 4,
            analysis is Some ==> {
                let made = analysis->0;
                &&& made.password() == password@
                &&& made.strength() == PasswordStrength::of_score(entropy.score)
                &&& made.guesses() == entropy.guesses_log10@
                &&& made.crack_times() == seq![
                    entropy.crack_times.online_throttling_100_per_hour@,
                    entropy.crack_times.online_no_throttling_10_per_second@,
                    entropy.crack_times.offline_slow_hashing_1e4_per_second@,
                    entropy.crack_times.offline_fast_hashing_1e10_per_second@,
                ]
            },
    {
        if entropy.score <= 4 {
            Some(
                PasswordAnalysis {
                    password,
                    strength: PasswordStrength::from(entropy.score),
                    guesses_log10: entropy.guesses_log10,
                    crack_times: entropy.crack_times,
                },
            )
        } else {
            None
        }
    }

    /// The strength found.
    pub fn password_strength(&self) -> (strength: PasswordStrength)
        ensures
            strength == self.strength(),
    {
        self.strength
    }

    /// The three tables of the report, in the order in which they are shown:
    /// the password, its strength, and the crack times.
    pub fn display_password_report(&self) -> (tables: Vec<String>)
        ensures
            tables@.len() == 3,
            tables@[0]@ == table_text("Generated Password"@, self.password_records()),
            tables@[1]@ == table_text("Password Security Analysis"@, self.analysis_records()),
            tables@[2]@ == table_text("Password Crack Time Estimations"@, self.crack_time_records()),
    {
        let mut tables: Vec<String> = Vec::new();
        tables.push(self.display_password_table());
        tables.push(self.display_password_analysis_table());
        tables.push(self.display_password_crack_time_table());
        tables
    }

    /// The table that shows the password.
    pub fn display_password_table(&self) -> (table: String)
        ensures
            table@ == table_text("Generated Password"@, self.password_records()),
    {
        let mut builder = new_builder();
        let record: Vec<&str> = vec![self.password];
        proof {
            assert(cells(record@) =~= seq![self.password()]);
        }
        push_record(&mut builder, record);
        proof {
            assert(records_of(builder) =~= self.password_records());
        }
        render(builder, "Generated Password")
    }

    /// The table of the strength in words and the guesses.
    pub fn display_password_analysis_table(&self) -> (table: String)
        ensures
            table@ == table_text("Password Security Analysis"@, self.analysis_records()),
    {
        let mut builder = new_builder();
        let strength = self.strength.to_string();
        let first: Vec<&str> = vec!["Strength", strength.as_str()];
        let second: Vec<&str> = vec!["Guesses", self.guesses_log10.as_str()];
        proof {
            assert(cells(first@) =~= seq!["Strength"@, self.strength().label()]);
            assert(cells(second@) =~= seq!["Guesses"@, self.guesses()]);
        }
        push_record(&mut builder, first);
        push_record(&mut builder, second);
        proof {
            assert(records_of(builder) =~= self.analysis_records());
        }
        render(builder, "Password Security Analysis")
    }

    /// The table of the crack times.
    pub fn display_password_crack_time_table(&self) -> (table: String)
        ensures
            table@ == table_text("Password Crack Time Estimations"@, self.crack_time_records()),
    {
        let mut builder = new_builder();
        let first: Vec<&str> = vec![
            "100 attempts/hour",
            self.crack_times.online_throttling_100_per_hour.as_str(),
        ];
        let second: Vec<&str> = vec![
            "10 attempts/second",
            self.crack_times.online_no_throttling_10_per_second.as_str(),
        ];
        let third: Vec<&str> = vec![
            "10^4 attempts/second",
            self.crack_times.offline_slow_hashing_1e4_per_second.as_str(),
        ];
        let fourth: Vec<&str> = vec![
            "10^10 attempts/second",
            self.crack_times.offline_fast_hashing_1e10_per_second.as_str(),
        ];
        proof {
            assert(cells(first@) =~= self.crack_time_records()[0]);
            assert(cells(second@) =~= self.crack_time_records()[1]);
            assert(cells(third@) =~= self.crack_time_records()[2]);
            assert(cells(fourth@) =~= self.crack_time_records()[3]);
        }
        push_record(&mut builder, first);
        push_record(&mut builder, second);
        push_record(&mut builder, third);
        push_record(&mut builder, fourth);
        proof {
            assert(records_of(builder) =~= self.crack_time_records());
        }
        render(builder, "Password Crack Time Estimations")
    }
}

} // verus!
