use intermediate_config::intermediate_config::{
    parse_config_from_str, IntermediateCompression, IntermediateConfig, IntermediateRemoteMachine,
};

#[test]
fn parse_config_from_str_all_fields_2_spaces_indent() {
    let content = "
remoteMachine:
  host: computer1
compression:
  local: 5
  remote: 2";
    assert_eq!(parse_config_from_str(content), Ok(IntermediateConfig {
        remote_machine: Some(IntermediateRemoteMachine {
            host: Some(String::from("computer1")),
        }),
        compression: Some(IntermediateCompression {
            local: Some(5),
            remote: Some(2),
        }),
    }));
}

#[test]
fn parse_config_from_str_all_fields_strings_in_quotes() {
    let content = "
remoteMachine:
  host: \"computer1\"
compression:
  local: 5
  remote: 2";
    assert_eq!(parse_config_from_str(content), Ok(IntermediateConfig {
        remote_machine: Some(IntermediateRemoteMachine {
            host: Some(String::from("computer1")),
        }),
        compression: Some(IntermediateCompression {
            local: Some(5),
            remote: Some(2),
        }),
    }));
}

#[test]
fn parse_config_from_str_all_fields_4_spaces_indent() {
    let content = "
remoteMachine:
    host: computer1
compression:
    local: 5
    remote: 2";
    assert_eq!(parse_config_from_str(content), Ok(IntermediateConfig {
        remote_machine: Some(IntermediateRemoteMachine {
            host: Some(String::from("computer1")),
        }),
        compression: Some(IntermediateCompression {
            local: Some(5),
            remote: Some(2),
        }),
    }));
}

#[test]
fn parse_config_from_str_only_remote_machine_host() {
    let content = "
remoteMachine:
  host: computer1
";
    assert_eq!(parse_config_from_str(content), Ok(IntermediateConfig {
        remote_machine: Some(IntermediateRemoteMachine {
            host: Some(String::from("computer1")),
        }),
        compression: None,
    }));
}

#[test]
fn parse_config_from_str_only_remote_machine_user() {
    let content = "
remoteMachine:
  user: user1
";
    assert_eq!(parse_config_from_str(content), Ok(IntermediateConfig {
        remote_machine: Some(IntermediateRemoteMachine { host: None }),
        compression: None,
    }));
}

#[test]
fn parse_config_from_str_only_compression_local() {
    let content = "
compression:
  local: 5
";
    assert_eq!(parse_config_from_str(content), Ok(IntermediateConfig {
        remote_machine: None,
        compression: Some(IntermediateCompression {
            local: Some(5),
            remote: None,
        }),
    }));
}

#[test]
fn parse_config_from_str_only_compression_remote() {
    let content = "
compression:
  remote: 2
";
    assert_eq!(parse_config_from_str(content), Ok(IntermediateConfig {
        remote_machine: None,
        compression: Some(IntermediateCompression {
            local: None,
            remote: Some(2),
        }),
    }));
}

#[test]
fn parse_config_from_str_compression_valid_range() {
    let mut compression_types: Vec<String> = Vec::new();
    compression_types.push(String::from("local"));
    compression_types.push(String::from("remote"));

    for compression_type in compression_types {
        for compression_level in 1..9 {
            let content = format!("
compression:
  {:#?}: {:#?}
", compression_type, compression_level);

            assert_eq!(parse_config_from_str(&content), Ok(IntermediateConfig {
                remote_machine: None,
                compression: Some(IntermediateCompression {
                    local: if compression_type == "local" { Some(compression_level) } else { None },
                    remote: if compression_type == "remote" { Some(compression_level) } else { None },
                }),
            }));
        }
    }
}

#[test]
fn parse_config_from_str_compression_invalid_range() {
    let mut compression_types: Vec<String> = Vec::new();
    compression_types.push(String::from("local"));
    compression_types.push(String::from("remote"));

    let mut invalid_compression_levels: Vec<i64> = Vec::new();
    invalid_compression_levels.push(0);
    invalid_compression_levels.push(10);
    invalid_compression_levels.push(-1);

    for compression_type in compression_types {
        for compression_level in &invalid_compression_levels {
            let content = format!("
compression:
  {:#?}: {:#?}
", compression_type, compression_level);

            assert_eq!(
                parse_config_from_str(&content),
                Err(format!("'compression.{}' must be a positive integer from 1 to 9, but was {}", compression_type, compression_level))
            );
        }
    }
}

#[test]
fn parse_config_from_str_compression_local_not_an_integer() {
    let content = "
compression:
  local: yooo
";
    assert_eq!(parse_config_from_str(content), Err(String::from("'compression.local\' must be a positive integer from 1 to 9, but was String(\n    \"yooo\"\n)")));
}

#[test]
fn parse_config_from_str_compression_remote_not_an_integer() {
    let content = "
compression:
  remote: yooo
";
    assert_eq!(parse_config_from_str(content), Err(String::from("'compression.remote\' must be a positive integer from 1 to 9, but was String(\n    \"yooo\"\n)")));
}
