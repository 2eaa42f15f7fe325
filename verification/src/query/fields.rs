use vstd::prelude::*;
use crate::text::{chars_of, str_eq_chars};

verus! {

/// One queryable column of an hourly point.
#[derive(Clone, Copy, Debug, PartialEq, Eq, Structural)]
pub enum Field {
    Time,
    Temp,
    ApparentTemp,
    Humidity,
    WindSpeed,
    WindDirection,
    Precipitation,
    PrecipitationProbability,
    CloudCover,
    WeatherCode,
    UvIndex,
    Visibility,
    SoilTemperature,
    SoilMoisture,
}

/// How a column yields a number for `--where`, `--sort` and `--aggregate`.
#[derive(Clone, Copy, Debug, PartialEq, Eq, Structural)]
pub enum NumericKind {
    /// The column has no numeric meaning (the timestamp).
    Never,
    /// Every point holds a number in this column.
    Always,
    /// The column is optional: a point may hold no value.
    WhenPresent,
}

/// The columns in the order in which they are listed.
pub open spec fn field_seq() -> Seq<Field> {
    seq![
        Field::Time,
        Field::Temp,
        Field::ApparentTemp,
        Field::Humidity,
        Field::WindSpeed,
        Field::WindDirection,
        Field::Precipitation,
        Field::PrecipitationProbability,
        Field::CloudCover,
        Field::WeatherCode,
        Field::UvIndex,
        Field::Visibility,
        Field::SoilTemperature,
        Field::SoilMoisture,
    ]
}

/// The display name of a column.
pub open spec fn field_name(f: Field) -> Seq<char> {
    match f {
        Field::Time => "time"@,
        Field::Temp => "temp"@,
        Field::ApparentTemp => "apparent_temp"@,
        Field::Humidity => "humidity"@,
        Field::WindSpeed => "wind_speed"@,
        Field::WindDirection => "wind_direction"@,
        Field::Precipitation => "precipitation"@,
        Field::PrecipitationProbability => "precipitation_probability"@,
        Field::CloudCover => "cloud_cover"@,
        Field::WeatherCode => "weather_code"@,
        Field::UvIndex => "uv_index"@,
        Field::Visibility => "visibility"@,
        Field::SoilTemperature => "soil_temperature"@,
        Field::SoilMoisture => "soil_moisture"@,
    }
}

/// Whether and when a column yields a number.
pub open spec fn field_numeric(f: Field) -> NumericKind {
    match f {
        Field::Time => NumericKind::Never,
        Field::UvIndex | Field::Visibility | Field::SoilTemperature | Field::SoilMoisture =>
            NumericKind::WhenPresent,
        _ => NumericKind::Always,
    }
}

/// Some column carries the name `name`.
pub open spec fn is_field_name(name: Seq<char>) -> bool {
    exists|f: Field| field_name(f) == name
}

/// The first listed column, at or after position `i`, named `name`.
pub open spec fn lookup_from(name: Seq<char>, i: int) -> Option<Field>
    decreases 14 - i,
{
    if i < 0 || i >= 14 {
        None
    } else if field_name(field_seq()[i]) == name {
        Some(field_seq()[i])
    } else {
        lookup_from(name, i + 1)
    }
}

/// The column named `name`, if any.
pub open spec fn lookup_field(name: Seq<char>) -> Option<Field> {
    lookup_from(name, 0)
}

/// Every column stands in the list.
pub proof fn lemma_field_listed(f: Field)
    ensures
        exists|i: int| 0 <= i < field_seq().len() && field_seq()[i] == f,
{
    let i: int = match f {
        Field::Time => 0,
        Field::Temp => 1,
        Field::ApparentTemp => 2,
        Field::Humidity => 3,
        Field::WindSpeed => 4,
        Field::WindDirection => 5,
        Field::Precipitation => 6,
        Field::PrecipitationProbability => 7,
        Field::CloudCover => 8,
        Field::WeatherCode => 9,
        Field::UvIndex => 10,
        Field::Visibility => 11,
        Field::SoilTemperature => 12,
        Field::SoilMoisture => 13,
    };
    assert(field_seq()[i] == f);
}

impl Field {
    /// The display name of this column.
    pub fn name(&self) -> (s: &'static str)
        ensures
            s@ == field_name(*self),
    {
        match self {
            Field::Time => "time",
            Field::Temp => "temp",
            Field::ApparentTemp => "apparent_temp",
            Field::Humidity => "humidity",
            Field::WindSpeed => "wind_speed",
            Field::WindDirection => "wind_direction",
            Field::Precipitation => "precipitation",
            Field::PrecipitationProbability => "precipitation_probability",
            Field::CloudCover => "cloud_cover",
            Field::WeatherCode => "weather_code",
            Field::UvIndex => "uv_index",
            Field::Visibility => "visibility",
            Field::SoilTemperature => "soil_temperature",
            Field::SoilMoisture => "soil_moisture",
        }
    }

    /// Whether and when this column yields a number.
    pub fn numeric(&self) -> (k: NumericKind)
        ensures
            k == field_numeric(*self),
    {
        match self {
            Field::Time => NumericKind::Never,
            Field::UvIndex | Field::Visibility | Field::SoilTemperature | Field::SoilMoisture =>
                NumericKind::WhenPresent,
            _ => NumericKind::Always,
        }
    }
}

/// One queryable column: its display name and the column it reads.
#[derive(Clone, Copy, Debug)]
pub struct FieldDef {
    pub name: &'static str,
    pub field: Field,
}

/// All columns, in the order in which they are listed.
pub fn fields() -> (v: Vec<Field>)
    ensures
        v@ == field_seq(),
{
    let v = vec![
        Field::Time,
        Field::Temp,
        Field::ApparentTemp,
        Field::Humidity,
        Field::WindSpeed,
        Field::WindDirection,
        Field::Precipitation,
        Field::PrecipitationProbability,
        Field::CloudCover,
        Field::WeatherCode,
        Field::UvIndex,
        Field::Visibility,
        Field::SoilTemperature,
        Field::SoilMoisture,
    ];
    assert(v@ =~= field_seq());
    v
}

/// The column named `name`, if any.
pub fn find(name: &str) -> (r: Option<FieldDef>)
    ensures
        r matches Some(d) ==> field_name(d.field) == name@ && d.name@ == name@ && lookup_field(
            name@,
        ) == Some(d.field),
        r is None <==> !is_field_name(name@),
        r is None <==> lookup_field(name@) is None,
{
    let target = chars_of(name);
    let all = fields();
    let mut i: usize = 0;
    while i < all.len()
        invariant
            i <= all.len(),
            all@ == field_seq(),
            target@ == name@,
            forall|j: int| 0 <= j < i ==> field_name(#[trigger] field_seq()[j]) != name@,
            lookup_field(name@) == lookup_from(name@, i as int),
        decreases all.len() - i,
    {
        let f = all[i];
        let n = f.name();
        if str_eq_chars(n, &target) {
            return Some(FieldDef { name: n, field: f });
        }
        i = i + 1;
    }
    proof {
        assert forall|f: Field| field_name(f) != name@ by {
            lemma_field_listed(f);
        }
    }
    None
}

/// No two listed columns share a name, so the list of names holds each name once.
pub proof fn law_field_names_distinct()
    ensures
        forall|i: int, j: int|
            0 <= i < field_seq().len() && 0 <= j < field_seq().len() && i != j ==> field_name(
                #[trigger] field_seq()[i],
            ) != field_name(#[trigger] field_seq()[j]),
{
    reveal_strlit("time");
    reveal_strlit("temp");
    reveal_strlit("apparent_temp");
    reveal_strlit("humidity");
    reveal_strlit("wind_speed");
    reveal_strlit("wind_direction");
    reveal_strlit("precipitation");
    reveal_strlit("precipitation_probability");
    reveal_strlit("cloud_cover");
    reveal_strlit("weather_code");
    reveal_strlit("uv_index");
    reveal_strlit("visibility");
    reveal_strlit("soil_temperature");
    reveal_strlit("soil_moisture");
    assert forall|i: int, j: int|
        0 <= i < field_seq().len() && 0 <= j < field_seq().len() && i != j implies field_name(
            #[trigger] field_seq()[i],
        ) != field_name(#[trigger] field_seq()[j]) by {
        let a = field_name(field_seq()[i]);
        let b = field_name(field_seq()[j]);
        if a == b {
            assert(a.len() == b.len());
            assert(a[0] == b[0]);
            assert(a[1] == b[1]);
        }
    }
}

/// Looking up the search from `i` on finds `f` when `f` stands at `k >= i` in the list.
proof fn lemma_lookup_from_listed(f: Field, i: int, k: int)
    requires
        0 <= i <= k < field_seq().len(),
        field_seq()[k] == f,
    ensures
        lookup_from(field_name(f), i) == Some(f),
    decreases k - i,
{
    if i < k {
        law_field_names_distinct();
        assert(field_name(field_seq()[i]) != field_name(field_seq()[k]));
        lemma_lookup_from_listed(f, i + 1, k);
    }
}

/// A column's own name finds that column, and holds no `:`.
pub proof fn lemma_field_name_finds_field(f: Field)
    ensures
        lookup_field(field_name(f)) == Some(f),
        forall|j: int| 0 <= j < field_name(f).len() ==> field_name(f)[j] != ':',
{
    lemma_field_listed(f);
    let k = choose|k: int| 0 <= k < field_seq().len() && field_seq()[k] == f;
    lemma_lookup_from_listed(f, 0, k);
    reveal_strlit("time");
    reveal_strlit("temp");
    reveal_strlit("apparent_temp");
    reveal_strlit("humidity");
    reveal_strlit("wind_speed");
    reveal_strlit("wind_direction");
    reveal_strlit("precipitation");
    reveal_strlit("precipitation_probability");
    reveal_strlit("cloud_cover");
    reveal_strlit("weather_code");
    reveal_strlit("uv_index");
    reveal_strlit("visibility");
    reveal_strlit("soil_temperature");
    reveal_strlit("soil_moisture");
}

/// The names of all columns, in the order in which they are listed.
pub fn names() -> (v: Vec<&'static str>)
    ensures
        v@.len() == field_seq().len(),
        forall|i: int| 0 <= i < v@.len() ==> (#[trigger] v@[i])@ == field_name(field_seq()[i]),
        forall|i: int, j: int| 0 <= i < v@.len() && 0 <= j < v@.len() && i != j ==> (#[trigger] v@[i])@
            != (#[trigger] v@[j])@,
{
    proof {
        law_field_names_distinct();
    }
    let all = fields();
    let mut v: Vec<&'static str> = Vec::new();
    let mut i: usize = 0;
    while i < all.len()
        invariant
            i <= all.len(),
            all@ == field_seq(),
            v@.len() == i,
            forall|j: int| 0 <= j < i ==> (#[trigger] v@[j])@ == field_name(field_seq()[j]),
        decreases all.len() - i,
    {
        v.push(all[i].name());
        i = i + 1;
    }
    v
}

} // verus!
