use xvm_transfer::address::{h160, AccountId};
use xvm_transfer::encoder::transfer_encode;
use xvm_transfer::router::{
    evm_request, native_request, route, select_path, TransferPath, EVM_ID,
};

#[test]
fn evm_is_virtual_machine_fifteen() {
    assert_eq!(EVM_ID, 0x0F);
}

#[test]
fn evm_request_targets_the_token_contract() {
    let call = evm_request([0x11; 20], 1000, [0xaa; 20]);
    assert_eq!(call.vm_id, 0x0F);
    assert_eq!(call.target, vec![0xaa; 20]);
    assert_eq!(call.payload, transfer_encode([0x11; 20], 1000));
    assert_eq!(call.payload.len(), 68);
    assert_eq!(&call.payload[..4], &[0xa9, 0x05, 0x9c, 0xbb]);
    assert_eq!(&call.payload[16..36], &[0x11; 20]);
    assert_eq!(&call.payload[66..], &[0x03, 0xe8]);
}

#[test]
fn native_request_pays_the_truncated_address() {
    let mut bytes = [0x22u8; 32];
    for byte in bytes[20..].iter_mut() {
        *byte = 0x99;
    }
    let to = AccountId { bytes };
    let call = native_request(&to, 5, [0xbb; 20], &vec![1, 2, 3]);
    assert_eq!(call.vm_id, EVM_ID);
    assert_eq!(call.target, vec![0xbb; 20]);
    assert_eq!(call.payload, transfer_encode([0x22; 20], 5));
}

#[test]
fn every_transfer_is_routed_to_the_evm() {
    let native_looking = AccountId { bytes: [0xd4; 32] };
    let zero = AccountId { bytes: [0; 32] };
    assert_eq!(select_path(&native_looking, 1, &[0xaa; 20], &vec![]), TransferPath::Evm);
    assert_eq!(select_path(&zero, 0, &[0; 20], &b"native".to_vec()), TransferPath::Evm);
    assert_eq!(
        select_path(&native_looking, u128::MAX, &[0xff; 20], &vec![0xff; 64]),
        TransferPath::Evm
    );
}

#[test]
fn route_builds_the_evm_request() {
    let mut bytes = [0u8; 32];
    for (i, byte) in bytes.iter_mut().enumerate() {
        *byte = 0x40 + i as u8;
    }
    let to = AccountId { bytes };
    for data in [vec![], vec![0u8], b"to native account".to_vec()] {
        let routed = route(&to, 77, [0xcc; 20], &data);
        let direct = evm_request(h160(&to), 77, [0xcc; 20]);
        assert_eq!(routed.vm_id, EVM_ID);
        assert_eq!(routed.vm_id, direct.vm_id);
        assert_eq!(routed.target, direct.target);
        assert_eq!(routed.payload, direct.payload);
        assert_eq!(&routed.payload[16..36], &bytes[..20]);
    }
}
