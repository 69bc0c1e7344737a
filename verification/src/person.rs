use vstd::prelude::*;

use crate::naming::NameGenerator;
use crate::random;

verus! {

#[derive(Clone, Copy, Debug, PartialEq, Eq, Structural)]
pub enum Gender {
    Male,
    Female,
}

/// A building occupant. The weight is a fixed-point integer in grams; the
/// height is in centimeters.
#[derive(Debug)]
pub struct Person {
    pub name: String,
    pub gender: Gender,
    pub age: u8,
    /// weight in g
    pub weight: i64,
    /// height in cm
    pub height: u8,
}

/// The Hamwi-method ideal weight in grams for a gender and a height in
/// centimeters: a base weight at 152 cm (5 feet), plus a per-centimeter
/// increment above it — 48 kg and 1.1 kg/cm for men, 45.4 kg and 0.9 kg/cm
/// for women.
pub open spec fn hamwi_weight(gender: Gender, height: int) -> int {
    match gender {
        Gender::Male => 48000 + 1100 * (height - 152),
        Gender::Female => 45400 + 900 * (height - 152),
    }
}

/// A configuration-with-defaults object for creating a Person: each
/// attribute may be supplied, and any left unset falls back to a documented
/// randomized policy when the person is finished.
#[derive(Debug)]
pub struct PersonBuilder {
    pub name_generator: NameGenerator,
    pub name: Option<String>,
    pub gender: Option<Gender>,
    pub age: Option<u8>,
    /// weight in g
    pub weight: Option<i64>,
    /// height in cm
    pub height: Option<u8>,
}

impl PersonBuilder {
    /// A builder with every attribute unset, drawing fallback names from the
    /// given generator.
    pub fn new(name_generator: NameGenerator) -> (builder: PersonBuilder)
        ensures
            builder == (PersonBuilder {
                name_generator,
                name: None,
                gender: None,
                age: None,
                weight: None,
                height: None,
            }),
    {
        PersonBuilder {
            name_generator,
            name: None,
            gender: None,
            age: None,
            weight: None,
            height: None,
        }
    }

    /// Sets the name; the other attributes are untouched.
    pub fn name(self, name: String) -> (builder: PersonBuilder)
        ensures
            builder == (PersonBuilder { name: Some(name), ..self }),
    {
        let mut builder = self;
        builder.name = Some(name);
        builder
    }

    /// Sets the gender; the other attributes are untouched.
    pub fn gender(self, gender: Gender) -> (builder: PersonBuilder)
        ensures
            builder == (PersonBuilder { gender: Some(gender), ..self }),
    {
        let mut builder = self;
        builder.gender = Some(gender);
        builder
    }

    /// Sets the age; the other attributes are untouched.
    pub fn age(self, age: u8) -> (builder: PersonBuilder)
        ensures
            builder == (PersonBuilder { age: Some(age), ..self }),
    {
        let mut builder = self;
        builder.age = Some(age);
        builder
    }

    /// Sets the weight in grams; the other attributes are untouched.
    pub fn weight(self, weight: i64) -> (builder: PersonBuilder)
        ensures
            builder == (PersonBuilder { weight: Some(weight), ..self }),
    {
        let mut builder = self;
        builder.weight = Some(weight);
        builder
    }

    /// Sets the height in centimeters; the other attributes are untouched.
    pub fn height(self, height: u8) -> (builder: PersonBuilder)
        ensures
            builder == (PersonBuilder { height: Some(height), ..self }),
    {
        let mut builder = self;
        builder.height = Some(height);
        builder
    }

    /// Creates the person. Every attribute that was set is taken as it is;
    /// each left unset falls back to its randomized default policy:
    /// - gender: an even random draw between Male and Female;
    /// - name: a random draw from the generator's corpus for the person's
    ///   gender (which must then not be empty, as a draw from an empty
    ///   corpus has no result);
    /// - age: random between 6 (capable of walking and pressing elevator
    ///   buttons) and 99 (still able to walk on its own);
    /// - height: random between 150 and 190 cm;
    /// - weight: the Hamwi-method weight for the person's gender and height.
    pub fn finish(self) -> (person: Person)
        requires
            self.name is None && self.gender == Some(Gender::Male)
                ==> self.name_generator.male_names@.len() > 0,
            self.name is None && self.gender == Some(Gender::Female)
                ==> self.name_generator.female_names@.len() > 0,
            self.name is None && self.gender is None
                ==> self.name_generator.male_names@.len() > 0
                    && self.name_generator.female_names@.len() > 0,
        ensures
            self.gender is Some ==> self.gender == Some(person.gender),
            self.name is Some ==> self.name == Some(person.name),
            self.name is None ==> self.name_generator.names_for(person.gender).contains(
                person.name@,
            ),
            self.age is Some ==> self.age == Some(person.age),
            self.age is None ==> 6 <= person.age <= 99,
            self.height is Some ==> self.height == Some(person.height),
            self.height is None ==> 150 <= person.height <= 190,
            self.weight is Some ==> self.weight == Some(person.weight),
            self.weight is None ==> person.weight == hamwi_weight(
                person.gender,
                person.height as int,
            ),
    {
        let PersonBuilder { name_generator, name, gender, age, weight, height } = self;
        let mut rng = random::fresh_rng();

        // if no gender is supplied, randomly select one
        let gender = match gender {
            Some(g) => g,
            None => if random::range_u8(&mut rng, 0, 1) == 0 {
                Gender::Male
            } else {
                Gender::Female
            },
        };

        // if no name is supplied, draw a random one for the gender
        let name = match name {
            Some(n) => n,
            None => name_generator.generate_name(gender),
        };

        // if no age is supplied, draw a random walking age
        let age = match age {
            Some(a) => a,
            None => random::range_u8(&mut rng, 6, 99),
        };

        // if no height is supplied, draw a random one
        let height = match height {
            Some(h) => h,
            None => random::range_u8(&mut rng, 150, 190),
        };

        // if no weight is supplied, derive it from gender and height by the
        // Hamwi method
        let weight = match weight {
            Some(w) => w,
            None => match gender {
                Gender::Male => 48000 + 1100 * ((height as i64) - 152),
                Gender::Female => 45400 + 900 * ((height as i64) - 152),
            },
        };

        Person { name, gender, age, weight, height }
    }
}

} // verus!
