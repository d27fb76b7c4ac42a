use vstd::prelude::*;

verus! {

/// The twelve months, as the remote service names them.
#[derive(Clone, Copy, Debug, PartialEq, Eq, Structural)]
pub enum MonthEnum {
    JANUARY,
    FEBRUARY,
    MARCH,
    APRIL,
    MAY,
    JUNE,
    JULY,
    AUGUST,
    SEPTEMBER,
    OCTOBER,
    NOVEMBER,
    DECEMBER,
}

impl MonthEnum {
    /// The month for a calendar number, with 1 standing for January.
    pub open spec fn spec_from_u32(month: u32) -> Option<MonthEnum> {
        match month {
            1u32 => Some(MonthEnum::JANUARY),
            2u32 => Some(MonthEnum::FEBRUARY),
            3u32 => Some(MonthEnum::MARCH),
            4u32 => Some(MonthEnum::APRIL),
            5u32 => Some(MonthEnum::MAY),
            6u32 => Some(MonthEnum::JUNE),
            7u32 => Some(MonthEnum::JULY),
            8u32 => Some(MonthEnum::AUGUST),
            9u32 => Some(MonthEnum::SEPTEMBER),
            10u32 => Some(MonthEnum::OCTOBER),
            11u32 => Some(MonthEnum::NOVEMBER),
            12u32 => Some(MonthEnum::DECEMBER),
            _ => None,
        }
    }

    pub fn from_u32(month: u32) -> (r: Option<MonthEnum>)
        ensures
            r == MonthEnum::spec_from_u32(month),
            r is Some <==> 1 <= month <= 12,
    {
        match month {
            1 => Some(MonthEnum::JANUARY),
            2 => Some(MonthEnum::FEBRUARY),
            3 => Some(MonthEnum::MARCH),
            4 => Some(MonthEnum::APRIL),
            5 => Some(MonthEnum::MAY),
            6 => Some(MonthEnum::JUNE),
            7 => Some(MonthEnum::JULY),
            8 => Some(MonthEnum::AUGUST),
            9 => Some(MonthEnum::SEPTEMBER),
            10 => Some(MonthEnum::OCTOBER),
            11 => Some(MonthEnum::NOVEMBER),
            12 => Some(MonthEnum::DECEMBER),
            _ => None,
        }
    }

    /// The month for a label as the month listing spells them.  All labels are
    /// upper case except January's, which the service sends capitalized.
    pub open spec fn spec_from_label(label: Seq<char>) -> Option<MonthEnum> {
        if label == "January"@ {
            Some(MonthEnum::JANUARY)
        } else if label == "FEBRUARY"@ {
            Some(MonthEnum::FEBRUARY)
        } else if label == "MARCH"@ {
            Some(MonthEnum::MARCH)
        } else if label == "APRIL"@ {
            Some(MonthEnum::APRIL)
        } else if label == "MAY"@ {
            Some(MonthEnum::MAY)
        } else if label == "JUNE"@ {
            Some(MonthEnum::JUNE)
        } else if label == "JULY"@ {
            Some(MonthEnum::JULY)
        } else if label == "AUGUST"@ {
            Some(MonthEnum::AUGUST)
        } else if label == "SEPTEMBER"@ {
            Some(MonthEnum::SEPTEMBER)
        } else if label == "OCTOBER"@ {
            Some(MonthEnum::OCTOBER)
        } else if label == "NOVEMBER"@ {
            Some(MonthEnum::NOVEMBER)
        } else if label == "DECEMBER"@ {
            Some(MonthEnum::DECEMBER)
        } else {
            None
        }
    }

    pub fn from_string(month: String) -> (r: Option<MonthEnum>)
        ensures
            r == MonthEnum::spec_from_label(month@),
    {
        if month == "January".to_owned() {
            Some(MonthEnum::JANUARY)
        } else if month == "FEBRUARY".to_owned() {
            Some(MonthEnum::FEBRUARY)
        } else if month == "MARCH".to_owned() {
            Some(MonthEnum::MARCH)
        } else if month == "APRIL".to_owned() {
            Some(MonthEnum::APRIL)
        } else if month == "MAY".to_owned() {
            Some(MonthEnum::MAY)
        } else if month == "JUNE".to_owned() {
            Some(MonthEnum::JUNE)
        } else if month == "JULY".to_owned() {
            Some(MonthEnum::JULY)
        } else if month == "AUGUST".to_owned() {
            Some(MonthEnum::AUGUST)
        } else if month == "SEPTEMBER".to_owned() {
            Some(MonthEnum::SEPTEMBER)
        } else if month == "OCTOBER".to_owned() {
            Some(MonthEnum::OCTOBER)
        } else if month == "NOVEMBER".to_owned() {
            Some(MonthEnum::NOVEMBER)
        } else if month == "DECEMBER".to_owned() {
            Some(MonthEnum::DECEMBER)
        } else {
            None
        }
    }

    /// The label under which the month is sent to the service, always upper
    /// case.
    pub open spec fn spec_label(self) -> Seq<char> {
        match self {
            MonthEnum::JANUARY => "JANUARY"@,
            MonthEnum::FEBRUARY => "FEBRUARY"@,
            MonthEnum::MARCH => "MARCH"@,
            MonthEnum::APRIL => "APRIL"@,
            MonthEnum::MAY => "MAY"@,
            MonthEnum::JUNE => "JUNE"@,
            MonthEnum::JULY => "JULY"@,
            MonthEnum::AUGUST => "AUGUST"@,
            MonthEnum::SEPTEMBER => "SEPTEMBER"@,
            MonthEnum::OCTOBER => "OCTOBER"@,
            MonthEnum::NOVEMBER => "NOVEMBER"@,
            MonthEnum::DECEMBER => "DECEMBER"@,
        }
    }

    pub fn label(&self) -> (r: String)
        ensures
            r@ == self.spec_label(),
    {
        match self {
            MonthEnum::JANUARY => "JANUARY".to_owned(),
            MonthEnum::FEBRUARY => "FEBRUARY".to_owned(),
            MonthEnum::MARCH => "MARCH".to_owned(),
            MonthEnum::APRIL => "APRIL".to_owned(),
            MonthEnum::MAY => "MAY".to_owned(),
            MonthEnum::JUNE => "JUNE".to_owned(),
            MonthEnum::JULY => "JULY".to_owned(),
            MonthEnum::AUGUST => "AUGUST".to_owned(),
            MonthEnum::SEPTEMBER => "SEPTEMBER".to_owned(),
            MonthEnum::OCTOBER => "OCTOBER".to_owned(),
            MonthEnum::NOVEMBER => "NOVEMBER".to_owned(),
            MonthEnum::DECEMBER => "DECEMBER".to_owned(),
        }
    }
}

/// The currencies a transaction can be recorded in.
#[derive(Clone, Copy, Debug, PartialEq, Eq, Structural)]
pub enum CurrencyEnum {
    USD,
    UYU,
    EUR,
}

impl CurrencyEnum {
    pub open spec fn spec_label(self) -> Seq<char> {
        match self {
            CurrencyEnum::USD => "USD"@,
            CurrencyEnum::UYU => "UYU"@,
            CurrencyEnum::EUR => "EUR"@,
        }
    }

    pub fn label(&self) -> (r: String)
        ensures
            r@ == self.spec_label(),
    {
        match self {
            CurrencyEnum::USD => "USD".to_owned(),
            CurrencyEnum::UYU => "UYU".to_owned(),
            CurrencyEnum::EUR => "EUR".to_owned(),
        }
    }
}

/// The kinds of transaction the service records.
#[derive(Clone, Copy, Debug, PartialEq, Eq, Structural)]
pub enum TransactionType {
    INCOME,
    EXPENSE,
    SAVING,
    INSTALLMENTS,
}

impl TransactionType {
    pub open spec fn spec_label(self) -> Seq<char> {
        match self {
            TransactionType::INCOME => "INCOME"@,
            TransactionType::EXPENSE => "EXPENSE"@,
            TransactionType::SAVING => "SAVING"@,
            TransactionType::INSTALLMENTS => "INSTALLMENTS"@,
        }
    }

    pub fn label(&self) -> (r: String)
        ensures
            r@ == self.spec_label(),
    {
        match self {
            TransactionType::INCOME => "INCOME".to_owned(),
            TransactionType::EXPENSE => "EXPENSE".to_owned(),
            TransactionType::SAVING => "SAVING".to_owned(),
            TransactionType::INSTALLMENTS => "INSTALLMENTS".to_owned(),
        }
    }
}

/// The panel that currently owns directional key input.  `Details` never owns
/// input; it only names the details overlay when a border is drawn.
#[derive(Clone, Copy, Debug, PartialEq, Eq, Structural)]
pub enum SelectedBlock {
    Months,
    Tabs,
    Incomes,
    Expenses,
    Savings,
    Details,
}

/// A sort direction for table rows.
#[derive(Clone, Copy, Debug, PartialEq, Eq, Structural)]
pub enum SortMode {
    ASC,
    DESC,
}

} // verus!
