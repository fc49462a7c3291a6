//! The immutable description of one board square: its kind, its purchase
//! price and its rent schedule.  The mutable ownership state lives in
//! [`crate::player::Asset`], kept in an arena owned by the game.

use vstd::prelude::*;

verus! {

/// The kind of a board square.  Streets, stations and utilities can be
/// bought; the other kinds only trigger effects when landed on.
#[derive(Eq, PartialEq, Structural, Debug, Clone, Copy)]
pub enum SquareType {
    ChanceCard,
    CommunityCard,
    Corner,
    Station,
    Street,
    Tax,
    Utility,
}

/// A colour group of streets.  Holding every street of a suburb doubles the
/// base rent and allows building houses; `building_price` is the price of
/// one house (or hotel) on any street of the group.
#[derive(Debug)]
pub struct Suburb {
    pub color: String,
    pub building_price: u32,
}

/// Purchase price, rent schedule and mortgage value of a purchasable square.
/// `rent_suburb[0]` is the rent with the whole suburb owned and no houses;
/// entries 1 to 4 are the rents for that many houses, entry 5 the hotel rent.
pub struct StreetDetails {
    pub suburb: Option<Suburb>,
    pub price: u32,
    pub rent: u32,
    pub rent_suburb: [u32; 6],
    pub mortgage: u32,
}

/// One square of the board: display name, kind, and, for purchasable
/// squares, its street details.
pub struct Square {
    pub name: String,
    pub square_type: SquareType,
    pub street_details: Option<StreetDetails>,
}

/// Relates a colour tag to the suburb it denotes.  Tags outside the eight
/// colour groups (stations and utilities use 'N') denote no suburb.
pub open spec fn suburb_matches_tag(tag: char, suburb: Option<Suburb>) -> bool {
    match tag {
        'B' => suburb matches Some(s) && s.color@ == "Brown"@ && s.building_price == 50,
        'L' => suburb matches Some(s) && s.color@ == "Blue"@ && s.building_price == 50,
        'P' => suburb matches Some(s) && s.color@ == "Pink"@ && s.building_price == 100,
        'O' => suburb matches Some(s) && s.color@ == "Orange"@ && s.building_price == 100,
        'R' => suburb matches Some(s) && s.color@ == "Red"@ && s.building_price == 150,
        'Y' => suburb matches Some(s) && s.color@ == "Yellow"@ && s.building_price == 150,
        'G' => suburb matches Some(s) && s.color@ == "Green"@ && s.building_price == 200,
        'I' => suburb matches Some(s) && s.color@ == "Indigo"@ && s.building_price == 200,
        _ => suburb is None,
    }
}

impl Suburb {
    fn new(color: &str, building_price: u32) -> (r: Self)
        ensures
            r.color@ == color@,
            r.building_price == building_price,
    {
        Self { color: color.to_owned(), building_price }
    }
}

impl StreetDetails {
    /// Build the details of a street from its colour tag, purchase price,
    /// base rent, rent schedule and mortgage value.
    pub fn new(color: char, price: u32, rent: u32, rent_suburb: [u32; 6], mortgage: u32) -> (r:
        Self)
        ensures
            r.price == price,
            r.rent == rent,
            r.rent_suburb == rent_suburb,
            r.mortgage == mortgage,
            suburb_matches_tag(color, r.suburb),
    {
        let suburb = match color {
            'B' => Some(Suburb::new("Brown", 50)),
            'L' => Some(Suburb::new("Blue", 50)),
            'P' => Some(Suburb::new("Pink", 100)),
            'O' => Some(Suburb::new("Orange", 100)),
            'R' => Some(Suburb::new("Red", 150)),
            'Y' => Some(Suburb::new("Yellow", 150)),
            'G' => Some(Suburb::new("Green", 200)),
            'I' => Some(Suburb::new("Indigo", 200)),
            _ => None,
        };
        Self { suburb, price, rent, rent_suburb, mortgage }
    }

    /// The cost of lifting a mortgage: the mortgage value plus a 10% fee,
    /// rounded to the nearest dollar.
    pub open spec fn spec_unmortgage_amount(&self) -> u32
        recommends
            self.mortgage <= 390_000_000,
    {
        ((self.mortgage * 11 + 5) / 10) as u32
    }

    /// Calculate the amount needed to unmortgage the street.
    pub fn get_unmortgage_amount(&self) -> (r: u32)
        requires
            self.mortgage <= 390_000_000,
        ensures
            r == self.spec_unmortgage_amount(),
    {
        (self.mortgage * 11 + 5) / 10
    }

    pub fn get_suburb(&self) -> (r: Option<&Suburb>)
        ensures
            match r {
                Some(s) => self.suburb matches Some(o) && o == *s,
                None => self.suburb is None,
            },
    {
        self.suburb.as_ref()
    }

    pub fn rent(&self) -> (r: u32)
        ensures
            r == self.rent,
    {
        self.rent
    }

    pub fn rent_suburb(&self) -> (r: &[u32; 6])
        ensures
            r == self.rent_suburb,
    {
        &self.rent_suburb
    }

    pub fn mortgage(&self) -> (r: u32)
        ensures
            r == self.mortgage,
    {
        self.mortgage
    }
}

impl Suburb {
    pub fn building_price(&self) -> (r: u32)
        ensures
            r == self.building_price,
    {
        self.building_price
    }

    pub fn color(&self) -> (r: &str)
        ensures
            r@ == self.color@,
    {
        self.color.as_str()
    }
}

impl Square {
    pub fn new(name: &str, square_type: SquareType, street_details: Option<StreetDetails>) -> (r:
        Self)
        ensures
            r.name@ == name@,
            r.square_type == square_type,
            r.street_details == street_details,
    {
        Self { name: name.to_owned(), square_type, street_details }
    }

    pub fn get_street_details(&self) -> (r: Option<&StreetDetails>)
        ensures
            match r {
                Some(d) => self.street_details matches Some(o) && o == *d,
                None => self.street_details is None,
            },
    {
        self.street_details.as_ref()
    }

    pub fn name(&self) -> (r: &str)
        ensures
            r@ == self.name@,
    {
        self.name.as_str()
    }

    pub fn square_type(&self) -> (r: SquareType)
        ensures
            r == self.square_type,
    {
        self.square_type
    }

    /// The purchase price of the square: the listed price for a street, a
    /// fixed 200 for a station and 150 for a utility, and 0 for anything
    /// that cannot be bought.
    pub open spec fn spec_price(&self) -> u32 {
        match self.square_type {
            SquareType::Station => 200u32,
            SquareType::Utility => 150u32,
            SquareType::Street => match self.street_details {
                Some(d) => d.price,
                None => 0u32,
            },
            _ => 0u32,
        }
    }

    /// Get purchase price of the square.
    pub fn get_price(&self) -> (r: u32)
        ensures
            r == self.spec_price(),
    {
        match self.square_type {
            SquareType::Station => 200,
            SquareType::Utility => 150,
            SquareType::Street => match &self.street_details {
                Some(d) => d.price,
                None => 0,
            },
            _ => 0,
        }
    }
}

} // verus!
