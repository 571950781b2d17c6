use rust_gui::{parse_constraint_unit, parse_sizing_unit, ConstraintUnit, ParsingError, SizingUnit};

#[test]
fn parses_fixed_and_stretch_tokens() {
    assert_eq!(parse_sizing_unit("Fixed:50"), Ok(SizingUnit::Fixed(50)));
    assert_eq!(
        parse_sizing_unit("Stretch"),
        Ok(SizingUnit::Stretch(ConstraintUnit::Unconstrained))
    );
    assert_eq!(
        parse_sizing_unit("Collapse"),
        Ok(SizingUnit::Collapse(ConstraintUnit::Unconstrained))
    );
    assert_eq!(
        parse_sizing_unit("Collapse:10"),
        Ok(SizingUnit::Collapse(ConstraintUnit::Fixed(10)))
    );
    assert_eq!(
        parse_sizing_unit("Stretch:80%"),
        Ok(SizingUnit::Stretch(ConstraintUnit::Percent(800)))
    );
}

#[test]
fn parses_percent_tokens_in_per_mille() {
    assert_eq!(
        parse_sizing_unit("Percent:0.5,_,_"),
        Ok(SizingUnit::Percent(
            500,
            ConstraintUnit::Unconstrained,
            ConstraintUnit::Unconstrained
        ))
    );
    assert_eq!(
        parse_sizing_unit("Percent:0.8,10,50"),
        Ok(SizingUnit::Percent(
            800,
            ConstraintUnit::Fixed(10),
            ConstraintUnit::Fixed(50)
        ))
    );
}

#[test]
fn parses_constraint_units() {
    assert_eq!(parse_constraint_unit("_"), Ok(ConstraintUnit::Unconstrained));
    assert_eq!(parse_constraint_unit("25"), Ok(ConstraintUnit::Fixed(25)));
    assert_eq!(parse_constraint_unit("25%"), Ok(ConstraintUnit::Percent(250)));
}

#[test]
fn rejects_malformed_tokens() {
    assert!(matches!(
        parse_sizing_unit("Banana"),
        Err(ParsingError::NotASizingUnit("Banana"))
    ));
    assert!(matches!(
        parse_sizing_unit("Fixed"),
        Err(ParsingError::NotEnoughArgumentsToSizing("Fixed"))
    ));
    assert!(matches!(
        parse_sizing_unit("Fixed:abc"),
        Err(ParsingError::InvalidConstraintSyntax("abc"))
    ));
    assert!(matches!(
        parse_sizing_unit("Percent:0.5"),
        Err(ParsingError::NotEnoughArgumentsToSizing("Percent:0.5"))
    ));
    assert!(matches!(
        parse_constraint_unit("12%34"),
        Err(ParsingError::InvalidConstraintSyntax("12%34"))
    ));
    assert!(matches!(
        parse_constraint_unit("-5"),
        Err(ParsingError::InvalidConstraintSyntax("-5"))
    ));
}
