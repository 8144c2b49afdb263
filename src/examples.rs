//! Counting how many published example results the tables reproduce.

use vstd::prelude::*;

verus! {

/// How many examples matched, for each compared figure.
#[derive(Clone, Copy, PartialEq, Eq, Structural, Debug, Default)]
pub struct Matches {
    pub income_simple_tax_canton: usize,
    pub income_simple_tax_city: usize,
    pub income_tax_canton: usize,
}

/// Whether an example is for a single or a married taxpayer.
#[derive(Clone, Copy, PartialEq, Eq, Structural, Hash, Debug)]
pub enum Relationship {
    Single,
    Married,
}

impl Matches {
    /// One example: each figure counts once where it matched.
    pub fn of_example(
        income_simple_tax_canton: bool,
        income_simple_tax_city: bool,
        income_tax_canton: bool,
    ) -> (r: Matches)
        ensures
            r.income_simple_tax_canton == (if income_simple_tax_canton {
                1usize
            } else {
                0
            }),
            r.income_simple_tax_city == (if income_simple_tax_city {
                1usize
            } else {
                0
            }),
            r.income_tax_canton == (if income_tax_canton {
                1usize
            } else {
                0
            }),
    {
        Matches {
            income_simple_tax_canton: if income_simple_tax_canton {
                1
            } else {
                0
            },
            income_simple_tax_city: if income_simple_tax_city {
                1
            } else {
                0
            },
            income_tax_canton: if income_tax_canton {
                1
            } else {
                0
            },
        }
    }

    /// Adds the counts of `other` to these.
    pub fn add_assign(&mut self, other: Matches)
        requires
            old(self).income_simple_tax_canton + other.income_simple_tax_canton <= usize::MAX,
            old(self).income_simple_tax_city + other.income_simple_tax_city <= usize::MAX,
            old(self).income_tax_canton + other.income_tax_canton <= usize::MAX,
        ensures
            final(self).income_simple_tax_canton == old(self).income_simple_tax_canton
                + other.income_simple_tax_canton,
            final(self).income_simple_tax_city == old(self).income_simple_tax_city
                + other.income_simple_tax_city,
            final(self).income_tax_canton == old(self).income_tax_canton + other.income_tax_canton,
    {
        self.income_simple_tax_canton = self.income_simple_tax_canton
            + other.income_simple_tax_canton;
        self.income_simple_tax_city = self.income_simple_tax_city + other.income_simple_tax_city;
        self.income_tax_canton = self.income_tax_canton + other.income_tax_canton;
    }
}

} // verus!

verus! {

/// A child declared in an example request.
#[derive(Clone, Copy, PartialEq, Eq, Structural, Debug)]
pub struct Child;

/// A request to the public tax calculator for one example.
#[derive(Clone, PartialEq, Eq, Debug)]
pub struct Request {
    pub children: Vec<Child>,
    pub confession1: u32,
    pub confession2: u32,
    pub relationship: u32,
    pub taxable_fortune: u32,
    pub taxable_income_canton: u32,
    pub taxable_income_fed: u32,
    pub tax_location_id: u32,
    pub tax_year: u32,
}

/// The confession code given for each adult in a request.
pub const CONFESSION: u32 = 5;

impl Request {
    /// The request of a single taxpayer without children.
    pub fn make_single(
        taxable_fortune: u32,
        taxable_income_canton: u32,
        taxable_income_fed: u32,
        tax_location_id: u32,
        tax_year: u32,
    ) -> (r: Request)
        ensures
            r.children@.len() == 0,
            r.confession1 == CONFESSION,
            r.confession2 == 0,
            r.relationship == 1,
            r.taxable_fortune == taxable_fortune,
            r.taxable_income_canton == taxable_income_canton,
            r.taxable_income_fed == taxable_income_fed,
            r.tax_location_id == tax_location_id,
            r.tax_year == tax_year,
    {
        Request {
            children: Vec::new(),
            confession1: CONFESSION,
            confession2: 0,
            relationship: 1,
            taxable_fortune,
            taxable_income_canton,
            taxable_income_fed,
            tax_location_id,
            tax_year,
        }
    }

    /// The request of a married couple without children.
    pub fn make_married(
        taxable_fortune: u32,
        taxable_income_canton: u32,
        taxable_income_fed: u32,
        tax_location_id: u32,
        tax_year: u32,
    ) -> (r: Request)
        ensures
            r.children@.len() == 0,
            r.confession1 == CONFESSION,
            r.confession2 == CONFESSION,
            r.relationship == 2,
            r.taxable_fortune == taxable_fortune,
            r.taxable_income_canton == taxable_income_canton,
            r.taxable_income_fed == taxable_income_fed,
            r.tax_location_id == tax_location_id,
            r.tax_year == tax_year,
    {
        Request {
            children: Vec::new(),
            confession1: CONFESSION,
            confession2: CONFESSION,
            relationship: 2,
            taxable_fortune,
            taxable_income_canton,
            taxable_income_fed,
            tax_location_id,
            tax_year,
        }
    }
}

} // verus!
