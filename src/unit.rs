use vstd::prelude::*;

verus! {

/// The units a duration is rendered in, each with an English singular and plural label.
#[derive(Clone, Copy, Debug, PartialEq, Eq, Structural)]
pub enum Unit {
    Second,
    Minute,
    Hour,
    Day,
}

/// The singular label of a unit.
pub open spec fn singular_label(u: Unit) -> Seq<char> {
    match u {
        Unit::Second => "second"@,
        Unit::Minute => "minute"@,
        Unit::Hour => "hour"@,
        Unit::Day => "day"@,
    }
}

/// The plural label of a unit.
pub open spec fn plural_label(u: Unit) -> Seq<char> {
    match u {
        Unit::Second => "seconds"@,
        Unit::Minute => "minutes"@,
        Unit::Hour => "hours"@,
        Unit::Day => "days"@,
    }
}

/// Words with a singular and a plural form.
pub trait SingularPlural {
    /// The singular form, as characters.
    spec fn singular_form(&self) -> Seq<char>;

    /// The plural form, as characters.
    spec fn plural_form(&self) -> Seq<char>;

    /// Gets the singular form of the word.
    fn singular(&self) -> (r: &str)
        ensures
            r@ == self.singular_form(),
    ;

    /// Gets the plural form of the word.
    fn plural(&self) -> (r: &str)
        ensures
            r@ == self.plural_form(),
    ;
}

impl SingularPlural for Unit {
    open spec fn singular_form(&self) -> Seq<char> {
        singular_label(*self)
    }

    open spec fn plural_form(&self) -> Seq<char> {
        plural_label(*self)
    }

    fn singular(&self) -> (r: &str) {
        match self {
            Unit::Second => "second",
            Unit::Minute => "minute",
            Unit::Hour => "hour",
            Unit::Day => "day",
        }
    }

    fn plural(&self) -> (r: &str) {
        match self {
            Unit::Second => "seconds",
            Unit::Minute => "minutes",
            Unit::Hour => "hours",
            Unit::Day => "days",
        }
    }
}

} // verus!
