use shogi_engine::piece_square_tables::PiecePhaseTables;
use shogi_engine::pst_loader::{
    parse_piece_type, PieceSquareTableConfig, PieceSquareTableLoadError, PieceSquareTableLoader,
    PieceSquareTablePreset, PieceSquareTableSource, SerializedPieceSquareTables, DEFAULT_PRESET_PATH,
};
use shogi_engine::types::{PieceType, Player, Position};

const NAMES: [&str; 14] = [
    "pawn",
    "lance",
    "knight",
    "silver",
    "gold",
    "bishop",
    "rook",
    "king",
    "promoted_pawn",
    "promoted_lance",
    "promoted_knight",
    "promoted_silver",
    "promoted_bishop",
    "promoted_rook",
];

fn zero() -> PiecePhaseTables {
    PiecePhaseTables { mg: [[0; 9]; 9], eg: [[0; 9]; 9] }
}

fn document(skip: Option<&str>) -> SerializedPieceSquareTables {
    let mut tables = Vec::new();
    for name in NAMES {
        if Some(name) != skip {
            tables.push((name.to_string(), zero()));
        }
    }
    SerializedPieceSquareTables {
        version: Some("0.1".to_string()),
        description: Some("test document".to_string()),
        tables,
    }
}

#[test]
fn parse_piece_names() {
    assert_eq!(parse_piece_type("pawn"), Some(PieceType::Pawn));
    assert_eq!(parse_piece_type("Promoted_Rook"), Some(PieceType::PromotedRook));
    assert_eq!(parse_piece_type("unknown"), None);
}

#[test]
fn complete_document_loads() {
    let mut doc = document(None);
    doc.tables[0].1.mg[6][4] = 12;
    let result = PieceSquareTableLoader::from_serialized(doc).unwrap();
    assert_eq!(result.version.as_deref(), Some("0.1"));
    assert_eq!(result.description.as_deref(), Some("test document"));
    let v = result.tables.get_value(PieceType::Pawn, Position::new(6, 4), Player::Black);
    assert_eq!((v.mg, v.eg), (12, 0));
}

#[test]
fn missing_piece_is_refused() {
    let err = PieceSquareTableLoader::from_serialized(document(Some("gold"))).unwrap_err();
    assert!(matches!(err, PieceSquareTableLoadError::MissingPiece(PieceType::Gold)));
    let err = PieceSquareTableLoader::from_serialized(document(Some("king"))).unwrap_err();
    assert!(matches!(err, PieceSquareTableLoadError::MissingPiece(PieceType::King)));
}

#[test]
fn unknown_and_repeated_names_are_refused() {
    let mut doc = document(None);
    doc.tables.insert(2, ("dragon".to_string(), zero()));
    match PieceSquareTableLoader::from_serialized(doc).unwrap_err() {
        PieceSquareTableLoadError::UnknownPiece(name) => assert_eq!(name, "dragon"),
        other => panic!("unexpected error {:?}", other),
    }
    let mut doc = document(None);
    doc.tables.push(("PAWN".to_string(), zero()));
    let err = PieceSquareTableLoader::from_serialized(doc).unwrap_err();
    assert!(matches!(err, PieceSquareTableLoadError::DuplicatePiece(PieceType::Pawn)));
}

#[test]
fn king_tables_must_be_zero_in_documents() {
    let mut doc = document(None);
    doc.tables[7].1.eg[0][0] = 5;
    let err = PieceSquareTableLoader::from_serialized(doc).unwrap_err();
    assert!(matches!(err, PieceSquareTableLoadError::NonZeroKingTables));
}

#[test]
fn configuration_selects_source() {
    let builtin = PieceSquareTableConfig::default();
    assert!(matches!(PieceSquareTableLoader::load(&builtin), Ok(PieceSquareTableSource::Tables(_))));

    let custom = PieceSquareTableConfig { preset: PieceSquareTablePreset::Custom, values_path: None };
    assert!(matches!(PieceSquareTableLoader::load(&custom), Err(PieceSquareTableLoadError::MissingCustomPath)));

    let blank = PieceSquareTableConfig {
        preset: PieceSquareTablePreset::Custom,
        values_path: Some("  \t".to_string()),
    };
    assert!(matches!(PieceSquareTableLoader::load(&blank), Err(PieceSquareTableLoadError::MissingCustomPath)));

    let preset = PieceSquareTableConfig { preset: PieceSquareTablePreset::Default, values_path: None };
    match PieceSquareTableLoader::load(&preset) {
        Ok(PieceSquareTableSource::File(path)) => assert_eq!(path, DEFAULT_PRESET_PATH),
        _ => panic!("default preset reads its file"),
    }

    let file = PieceSquareTableConfig {
        preset: PieceSquareTablePreset::Builtin,
        values_path: Some("tables.json".to_string()),
    };
    match PieceSquareTableLoader::load(&file) {
        Ok(PieceSquareTableSource::File(path)) => assert_eq!(path, "tables.json"),
        _ => panic!("a given path wins"),
    }
}

#[test]
fn load_basic_tables_from_json() {
    let result = PieceSquareTableLoader::from_serialized(document(None)).unwrap();
    assert_eq!(result.version.as_deref(), Some("0.1"));
    assert_eq!(result.description.as_deref(), Some("test document"));

    let zero = zero();
    for piece in [
        PieceType::Pawn,
        PieceType::Lance,
        PieceType::Knight,
        PieceType::Silver,
        PieceType::Gold,
        PieceType::Bishop,
        PieceType::Rook,
        PieceType::PromotedPawn,
        PieceType::PromotedLance,
        PieceType::PromotedKnight,
        PieceType::PromotedSilver,
        PieceType::PromotedBishop,
        PieceType::PromotedRook,
    ] {
        let (mg, eg) = result.tables.get_tables(piece);
        assert_eq!(mg, &zero.mg);
        assert_eq!(eg, &zero.eg);
    }
}

#[test]
fn custom_preset_without_path_errors() {
    let mut config = PieceSquareTableConfig::default();
    config.preset = PieceSquareTablePreset::Custom;
    config.values_path = None;

    let err = PieceSquareTableLoader::load(&config).unwrap_err();
    assert!(matches!(err, PieceSquareTableLoadError::MissingCustomPath));
}

#[test]
fn missing_piece_errors() {
    let err = PieceSquareTableLoader::from_serialized(document(Some("lance"))).unwrap_err();
    match err {
        PieceSquareTableLoadError::MissingPiece(piece) => assert_eq!(piece, PieceType::Lance),
        other => panic!("expected missing piece error, got {other:?}"),
    }
}

#[test]
fn king_tables_must_be_zero() {
    let mut doc = document(None);
    doc.tables[7].1.mg = [[1; 9]; 9];
    let err = PieceSquareTableLoader::from_serialized(doc).unwrap_err();
    assert!(matches!(err, PieceSquareTableLoadError::NonZeroKingTables));
}
