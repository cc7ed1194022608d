use anagolay_types::operations::{
    Operation, OperationArtifactType, OperationData, OperationExtra, OperationVersion,
    OperationVersionData, OperationVersionExtra, OperationVersionPackage, PackageType,
};
use anagolay_types::support::{AnagolayArtifactStructure, AnagolayVersionExtra, Characters};

#[test]
fn test_template() {
    let _ = OperationData::default();
}

#[test]
fn default_operation_data_is_empty() {
    let d = OperationData::default();
    assert!(d.name.is_empty());
    assert!(d.description.is_empty());
    assert!(d.input.is_empty());
    assert!(d.config.is_empty());
    assert!(d.groups.is_empty());
    assert!(d.output.is_empty());
    assert!(d.repository.is_empty());
    assert!(d.license.is_empty());
    assert!(d.features.is_empty());
}

#[test]
fn default_operation_version_data_is_empty() {
    let d = OperationVersionData::default();
    assert_eq!(d.entity_id, None);
    assert_eq!(d.parent_id, None);
    assert!(d.artifacts.is_empty());
}

fn request() -> (Operation, OperationVersion) {
    let op = Operation {
        id: "bafkr4ih2xmsije6aa6yfwjdfmztnnkbb6ip56g3ojfcyfgjx6jsh6bogoe".into(),
        data: OperationData {
            name: "op_aaaaa".into(),
            description: "op_aaaaa description".into(),
            repository: "https://github.com/anagolay/op_aaaaa".into(),
            license: "Apache 2.0".into(),
            features: vec!["std".into()],
            ..OperationData::default()
        },
        extra: None,
    };
    let op_ver = OperationVersion {
        id: "bafybeihc2e5rshwlkcg47uojrhtw7dwhyq2cxwivf3sysfnx5jtuuafvia".into(),
        data: OperationVersionData {
            entity_id: Some(op.id.clone()),
            parent_id: None,
            artifacts: vec![AnagolayArtifactStructure {
                artifact_type: OperationArtifactType::Git,
                file_extension: Characters::from_str("git"),
                ipfs_cid: Characters::from_str(
                    "bafkreibft6r6ijt7lxmbu2x3oq2s2ehwm5kz2nflwnlktdhcq2yfhgd4ku",
                ),
            }],
        },
        extra: Some(AnagolayVersionExtra { created_at: 1 }),
    };
    (op, op_ver)
}

#[test]
fn operation_and_version_request() {
    let (op, op_ver) = request();
    assert_eq!(op.data.features, vec![b"std".to_vec()]);
    assert!(op.data.config.is_empty());
    assert_eq!(op_ver.data.entity_id, Some(op.id.clone()));
    assert_eq!(op_ver.data.artifacts.len(), 1);
    assert_eq!(op_ver.data.artifacts[0].artifact_type, OperationArtifactType::Git);
    assert!(op_ver.extra.is_some());
}

#[test]
fn operation_with_config() {
    let (mut op, _) = request();
    op.data
        .config
        .insert("test_key".into(), vec!["test_val0".into(), "test_val1".into()]);
    let mut keys = op.data.config.clone().into_keys();
    assert_eq!(keys.next().unwrap(), b"test_key".to_vec());
    assert_eq!(op.data.config[&b"test_key".to_vec()].len(), 2);
    assert!(op.extra.is_none());
    let _ = OperationExtra {};
}

#[test]
fn packages_and_extra() {
    let p = OperationVersionPackage {
        package_type: PackageType::Wasm,
        file_url: b"op.wasm".to_vec(),
        ipfs_cid: b"bafkr_pkg".to_vec(),
    };
    assert_eq!(p.package_type, PackageType::Wasm);
    assert_ne!(PackageType::Crate, PackageType::Esm);
    assert_eq!(OperationVersionExtra { created_at: 7 }.created_at, 7);
}
