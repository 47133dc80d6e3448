use tpm2_rs::codec::{marshal_policy_data, unmarshal_policy_data};
use tpm2_rs::policy::{HashAlgorithm, PcrSelection, PcrSlot, PolicyBranchData, PolicyCommand, PolicyData};
use tpm2_rs::tpm::TpmlDigest;

#[test]
fn policy_data_round_trip_clears_selection() {
    let policy = PolicyData::Sequence(vec![
        PolicyData::Pcr(
            PcrSelection::new(HashAlgorithm::Sha256, &[PcrSlot::Slot0, PcrSlot::Slot7])
                .expect("PCR selection must be valid"),
        ),
        PolicyData::Command(PolicyCommand::Sign),
        PolicyData::Or {
            branches: vec![
                PolicyBranchData {
                    label: "auth".to_string(),
                    policy: PolicyData::AuthValue,
                },
                PolicyBranchData {
                    label: "password".to_string(),
                    policy: PolicyData::Password,
                },
            ],
            branch_digests: TpmlDigest::default(),
            selected_label: Some("auth".to_string()),
        },
    ]);

    let bytes = marshal_policy_data(&policy).expect("policy data must marshal");

    let PolicyData::Sequence(steps) = unmarshal_policy_data(&bytes).expect("policy data must unmarshal") else {
        panic!("decoded policy must be a sequence");
    };

    assert!(matches!(
        &steps[0],
        PolicyData::Pcr(selection)
            if selection.hash_alg() == HashAlgorithm::Sha256
                && selection.slots() == &[PcrSlot::Slot0, PcrSlot::Slot7]
    ));
    assert!(matches!(&steps[1], PolicyData::Command(PolicyCommand::Sign)));
    assert!(matches!(
        &steps[2],
        PolicyData::Or {
            branches,
            selected_label: None,
            ..
        } if matches!(branches.as_slice(), [
            PolicyBranchData {
                label,
                policy: PolicyData::AuthValue,
            },
            PolicyBranchData {
                label: second_label,
                policy: PolicyData::Password,
            },
        ] if label == "auth" && second_label == "password")
    ));
}
