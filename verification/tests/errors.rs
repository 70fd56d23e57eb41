use transr::errhuman::ErrorKind;
use transr::errhuman::TransRError;

#[test]
fn every_error_renders_kind_and_message() {
    assert_eq!(TransRError::PipelineError("m".to_string()).to_string(), "❌ Pipeline Error: m");
    assert_eq!(TransRError::SystemError("m".to_string()).to_string(), "❌ System Error: m");
    assert_eq!(TransRError::NetworkError("m".to_string()).to_string(), "❌ Network Error: m");
    assert_eq!(TransRError::CryptoError("m".to_string()).to_string(), "❌ Crypto Error: m");
    assert_eq!(TransRError::MathError("m".to_string()).to_string(), "❌ Math Error: m");
    assert_eq!(TransRError::IoError("m".to_string()).to_string(), "❌ IO Error: m");
    assert_eq!(TransRError::ParseError("m".to_string()).to_string(), "❌ Parse Error: m");
    assert_eq!(
        TransRError::RegionError("scan".to_string()).to_string(),
        "❌ Region Error: Feature 'scan' tidak tersedia dalam region ini"
    );
    assert_eq!(TransRError::ValidationError("m".to_string()).to_string(), "❌ Validation Error: m");
    assert_eq!(TransRError::Unknown("m".to_string()).to_string(), "⚠️  Unknown Error: m");
}

#[test]
fn every_error_has_its_kind() {
    assert_eq!(TransRError::PipelineError(String::new()).kind(), ErrorKind::Pipeline);
    assert_eq!(TransRError::SystemError(String::new()).kind(), ErrorKind::System);
    assert_eq!(TransRError::NetworkError(String::new()).kind(), ErrorKind::Network);
    assert_eq!(TransRError::CryptoError(String::new()).kind(), ErrorKind::Crypto);
    assert_eq!(TransRError::MathError(String::new()).kind(), ErrorKind::Math);
    assert_eq!(TransRError::IoError(String::new()).kind(), ErrorKind::Io);
    assert_eq!(TransRError::ParseError(String::new()).kind(), ErrorKind::Parse);
    assert_eq!(TransRError::RegionError(String::new()).kind(), ErrorKind::Region);
    assert_eq!(TransRError::ValidationError(String::new()).kind(), ErrorKind::Validation);
    assert_eq!(TransRError::Unknown(String::new()).kind(), ErrorKind::Unknown);
}

#[test]
fn detail_is_the_message() {
    assert_eq!(TransRError::MathError("Division by zero".to_string()).detail(), "Division by zero");
    assert_eq!(TransRError::RegionError("f".to_string()).detail(), "f");
}
