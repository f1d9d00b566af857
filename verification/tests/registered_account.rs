use entropy_network_status_page::registered_account::{
    decode_account_entry, decode_registered_info, is_sec1_well_formed, read_key_visibility,
    read_program_list, ProgramInstance,
};
use entropy_network_status_page::{
    get_registered_accounts, public_key_to_eth_address, AccountId32, CryptoError, DecodeError,
    KeyVisibility, RawStorageEntry, RegisteredAccount, RegisteredInfo, StorageKey, H160, H256,
};
use parity_scale_codec::Encode;

const GENERATOR_X: &str = "79be667ef9dcbbac55a06295ce870b07029bfcdb2dce28d959f2815b16f81798";
const GENERATOR_Y: &str = "483ada7726a3c4655da4fbfc0e1108a8fd17b448a68554199c47d08ffb10d4b8";
const ADDRESS_OF_KEY_ONE: &str = "7e5f4552091a69125d5dfcb7b8c2659029395bdf";
const TWICE_GENERATOR_X: &str = "c6047f9441ed7d6d3045406e95c07cd85c778e4b8cef3ca7abac09b95c709ee5";
const ADDRESS_OF_KEY_TWO: &str = "2b5ad5c4795c026514f8317c7a215e218dccd6cf";

fn unhex(text: &str) -> Vec<u8> {
    hex::decode(text).unwrap()
}

fn compressed(tag: u8, x: &str) -> Vec<u8> {
    let mut key = vec![tag];
    key.extend(unhex(x));
    key
}

fn address(text: &str) -> H160 {
    let mut bytes = [0u8; 20];
    bytes.copy_from_slice(&unhex(text));
    H160(bytes)
}

fn encoded_account(
    visibility: &[u8],
    verifying_key: &[u8],
    programs: &[([u8; 32], Vec<u8>)],
    modifier: [u8; 32],
) -> Vec<u8> {
    let mut input = visibility.to_vec();
    input.extend(verifying_key.to_vec().encode());
    input.extend(programs.to_vec().encode());
    input.extend_from_slice(&modifier);
    input
}

fn account_entry(account: [u8; 32], value: Vec<u8>) -> RawStorageEntry {
    let mut key = vec![0x33u8; 48];
    key.extend_from_slice(&account);
    RawStorageEntry {
        key: StorageKey::new(key).unwrap(),
        value,
    }
}

#[test]
fn visibility_tags() {
    assert_eq!(
        read_key_visibility(&[0, 9]),
        Ok((KeyVisibility::Public, &[9u8][..]))
    );
    assert_eq!(
        read_key_visibility(&[1, 9]),
        Ok((KeyVisibility::Permissioned, &[9u8][..]))
    );
    let mut private = vec![2u8];
    private.extend_from_slice(&[0x77u8; 32]);
    private.push(9);
    assert_eq!(
        read_key_visibility(&private),
        Ok((KeyVisibility::Private([0x77u8; 32]), &[9u8][..]))
    );
}

#[test]
fn visibility_with_an_unknown_tag() {
    for tag in [3u8, 4, 0x7f, 0xff] {
        assert_eq!(
            read_key_visibility(&[tag, 0, 0]),
            Err(DecodeError::InvalidTag)
        );
    }
}

#[test]
fn visibility_cut_short() {
    assert_eq!(read_key_visibility(&[]), Err(DecodeError::Truncated));
    let mut private = vec![2u8];
    private.extend_from_slice(&[0x77u8; 31]);
    assert_eq!(read_key_visibility(&private), Err(DecodeError::Truncated));
}

#[test]
fn program_list_empty() {
    assert_eq!(read_program_list(&[0, 5]), Ok((vec![], &[5u8][..])));
}

#[test]
fn program_list_in_order() {
    let programs = vec![
        ([1u8; 32], vec![1u8]),
        ([2u8; 32], vec![]),
        ([3u8; 32], vec![3u8, 3, 3]),
    ];
    let mut input = programs.encode();
    input.push(0xee);
    let (instances, rest) = read_program_list(&input).unwrap();
    assert_eq!(
        instances,
        vec![
            ProgramInstance {
                program_pointer: H256([1u8; 32]),
                program_config: vec![1],
            },
            ProgramInstance {
                program_pointer: H256([2u8; 32]),
                program_config: vec![],
            },
            ProgramInstance {
                program_pointer: H256([3u8; 32]),
                program_config: vec![3, 3, 3],
            },
        ]
    );
    assert_eq!(rest, &[0xeeu8][..]);
}

#[test]
fn program_list_shorter_than_its_count() {
    let programs = vec![([1u8; 32], vec![1u8]), ([2u8; 32], vec![])];
    let input = programs.encode();
    assert_eq!(
        read_program_list(&input[..input.len() - 1]),
        Err(DecodeError::MalformedLength)
    );
    assert_eq!(
        read_program_list(&input[..input.len() - 2]),
        Err(DecodeError::Truncated)
    );
    assert_eq!(read_program_list(&[0x08]), Err(DecodeError::Truncated));
    assert_eq!(read_program_list(&[]), Err(DecodeError::MalformedLength));
    // A count of 2^30 with nothing behind it.
    assert_eq!(
        read_program_list(&[0x03, 0x00, 0x00, 0x00, 0x40]),
        Err(DecodeError::Truncated)
    );
}

#[test]
fn registered_info_fields_in_order() {
    let key = compressed(2, GENERATOR_X);
    let input = encoded_account(&[1], &key, &[([5u8; 32], vec![6, 7])], [8u8; 32]);
    assert_eq!(
        decode_registered_info(&input),
        Ok(RegisteredInfo {
            key_visibility: KeyVisibility::Permissioned,
            verifying_key: key,
            programs_data: vec![ProgramInstance {
                program_pointer: H256([5u8; 32]),
                program_config: vec![6, 7],
            }],
            program_modification_account: AccountId32([8u8; 32]),
        })
    );
}

#[test]
fn registered_info_of_a_private_account() {
    let mut visibility = vec![2u8];
    visibility.extend_from_slice(&[0x44u8; 32]);
    let input = encoded_account(&visibility, &[1, 2, 3], &[], [8u8; 32]);
    let info = decode_registered_info(&input).unwrap();
    assert_eq!(info.key_visibility, KeyVisibility::Private([0x44u8; 32]));
    assert_eq!(info.verifying_key, vec![1, 2, 3]);
    assert!(info.programs_data.is_empty());
}

#[test]
fn registered_info_cut_short_at_every_place() {
    let key = compressed(3, GENERATOR_X);
    let input = encoded_account(&[0], &key, &[([5u8; 32], vec![6, 7])], [8u8; 32]);
    for len in 0..input.len() {
        assert!(decode_registered_info(&input[..len]).is_err(), "{} bytes", len);
    }
    assert!(decode_registered_info(&input).is_ok());
}

#[test]
fn registered_info_with_an_unknown_tag() {
    let input = encoded_account(&[7], &[1], &[], [8u8; 32]);
    assert_eq!(decode_registered_info(&input), Err(DecodeError::InvalidTag));
}

#[test]
fn sec1_forms() {
    assert!(!is_sec1_well_formed(&[]));
    assert!(is_sec1_well_formed(&[0]));
    assert!(!is_sec1_well_formed(&[0, 0]));
    assert!(!is_sec1_well_formed(&[1; 33]));
    assert!(is_sec1_well_formed(&[2; 33]));
    assert!(is_sec1_well_formed(&[3; 33]));
    assert!(is_sec1_well_formed(&[5; 33]));
    assert!(!is_sec1_well_formed(&[2; 32]));
    assert!(!is_sec1_well_formed(&[2; 34]));
    assert!(!is_sec1_well_formed(&[2; 65]));
    assert!(is_sec1_well_formed(&[4; 65]));
    assert!(!is_sec1_well_formed(&[4; 33]));
    assert!(!is_sec1_well_formed(&[6; 33]));
}

#[test]
fn address_of_the_generator() {
    assert_eq!(
        public_key_to_eth_address(compressed(2, GENERATOR_X)),
        Ok(address(ADDRESS_OF_KEY_ONE))
    );
}

#[test]
fn address_of_twice_the_generator() {
    assert_eq!(
        public_key_to_eth_address(compressed(2, TWICE_GENERATOR_X)),
        Ok(address(ADDRESS_OF_KEY_TWO))
    );
}

#[test]
fn address_of_an_uncompressed_key() {
    let mut key = compressed(4, GENERATOR_X);
    key.extend(unhex(GENERATOR_Y));
    assert_eq!(
        public_key_to_eth_address(key),
        Ok(address(ADDRESS_OF_KEY_ONE))
    );
}

#[test]
fn address_differs_with_the_sign_of_y() {
    let even = public_key_to_eth_address(compressed(2, GENERATOR_X)).unwrap();
    let odd = public_key_to_eth_address(compressed(3, GENERATOR_X)).unwrap();
    assert_ne!(even, odd);
}

#[test]
fn address_is_the_same_each_time() {
    let first = public_key_to_eth_address(compressed(3, TWICE_GENERATOR_X));
    let second = public_key_to_eth_address(compressed(3, TWICE_GENERATOR_X));
    assert!(first.is_ok());
    assert_eq!(first, second);
}

#[test]
fn address_of_bytes_of_a_wrong_length() {
    let key = compressed(2, GENERATOR_X);
    for len in [0usize, 1, 2, 16, 32] {
        assert_eq!(
            public_key_to_eth_address(key[..len].to_vec()),
            Err(CryptoError::InvalidEncoding),
            "{} bytes",
            len
        );
    }
    let mut long = key.clone();
    long.push(0);
    assert_eq!(
        public_key_to_eth_address(long),
        Err(CryptoError::InvalidEncoding)
    );
    assert_eq!(
        public_key_to_eth_address(vec![4u8; 64]),
        Err(CryptoError::InvalidEncoding)
    );
}

#[test]
fn address_of_bytes_with_a_wrong_tag() {
    assert_eq!(
        public_key_to_eth_address(compressed(1, GENERATOR_X)),
        Err(CryptoError::InvalidEncoding)
    );
    assert_eq!(
        public_key_to_eth_address(compressed(6, GENERATOR_X)),
        Err(CryptoError::InvalidEncoding)
    );
}

#[test]
fn address_of_a_point_off_the_curve() {
    // A coordinate that is no field element.
    assert_eq!(
        public_key_to_eth_address(vec![2u8].into_iter().chain([0xffu8; 32]).collect()),
        Err(CryptoError::InvalidPoint)
    );
    // The point at infinity is no public key.
    assert_eq!(
        public_key_to_eth_address(vec![0u8]),
        Err(CryptoError::InvalidPoint)
    );
    // The generator's x with a y that does not belong to it.
    let mut key = compressed(4, GENERATOR_X);
    key.extend_from_slice(&[1u8; 32]);
    assert_eq!(
        public_key_to_eth_address(key),
        Err(CryptoError::InvalidPoint)
    );
}

#[test]
fn account_row_labels() {
    let cases = [
        (KeyVisibility::Public, "Public", "green"),
        (KeyVisibility::Permissioned, "Permissioned", "amber"),
        (KeyVisibility::Private([1u8; 32]), "Private", "red"),
    ];
    for (visibility, label, color) in cases {
        let info = RegisteredInfo {
            key_visibility: visibility,
            verifying_key: vec![],
            programs_data: vec![],
            program_modification_account: AccountId32([0u8; 32]),
        };
        let account = RegisteredAccount::new(AccountId32([1u8; 32]), info);
        assert_eq!(account.key_visibility, (label.to_string(), color.to_string()));
    }
}

#[test]
fn account_row_with_an_address() {
    let key = compressed(2, GENERATOR_X);
    let mut pointer = [0u8; 32];
    pointer[0] = 0xaa;
    pointer[1] = 0xbb;
    pointer[30] = 0xcc;
    pointer[31] = 0xdd;
    let info = RegisteredInfo {
        key_visibility: KeyVisibility::Public,
        verifying_key: key.clone(),
        programs_data: vec![
            ProgramInstance {
                program_pointer: H256(pointer),
                program_config: vec![1],
            },
            ProgramInstance {
                program_pointer: H256([0x11u8; 32]),
                program_config: vec![],
            },
        ],
        program_modification_account: AccountId32([6u8; 32]),
    };
    let account = RegisteredAccount::new(AccountId32([1u8; 32]), info);
    assert_eq!(account.account_id, AccountId32([1u8; 32]));
    assert_eq!(account.verifying_key.0, key);
    assert_eq!(account.verifying_key.to_string(), "0279…1798");
    assert_eq!(account.ethereum_address, Some(address(ADDRESS_OF_KEY_ONE)));
    assert_eq!(
        account.program_pointers,
        vec!["aabb…ccdd".to_string(), "1111…1111".to_string()]
    );
    assert_eq!(account.program_modification_account, AccountId32([6u8; 32]));
}

#[test]
fn account_row_without_an_address() {
    let info = RegisteredInfo {
        key_visibility: KeyVisibility::Public,
        verifying_key: vec![1, 2, 3],
        programs_data: vec![],
        program_modification_account: AccountId32([6u8; 32]),
    };
    let account = RegisteredAccount::new(AccountId32([1u8; 32]), info);
    assert_eq!(account.ethereum_address, None);
    assert_eq!(account.verifying_key.to_string(), "010203");
    assert!(account.program_pointers.is_empty());
}

#[test]
fn account_entry_takes_the_account_from_the_key() {
    let key = compressed(2, TWICE_GENERATOR_X);
    let entry = account_entry([0x5au8; 32], encoded_account(&[0], &key, &[], [8u8; 32]));
    let account = decode_account_entry(&entry).unwrap();
    assert_eq!(account.account_id, AccountId32([0x5au8; 32]));
    assert_eq!(account.ethereum_address, Some(address(ADDRESS_OF_KEY_TWO)));
    assert_eq!(account.program_modification_account, AccountId32([8u8; 32]));
}

#[test]
fn accounts_of_no_entries() {
    assert!(get_registered_accounts(&vec![]).unwrap().is_empty());
}

#[test]
fn accounts_in_the_order_of_the_entries() {
    let entries = vec![
        account_entry([1u8; 32], encoded_account(&[0], &[1], &[], [8u8; 32])),
        account_entry([2u8; 32], encoded_account(&[1], &[2], &[], [8u8; 32])),
        account_entry([3u8; 32], encoded_account(&[0], &[3], &[], [8u8; 32])),
    ];
    let accounts = get_registered_accounts(&entries).unwrap();
    assert_eq!(accounts.len(), 3);
    for (i, account) in accounts.iter().enumerate() {
        assert_eq!(account.account_id, AccountId32([(i + 1) as u8; 32]));
        assert_eq!(account.verifying_key.0, vec![(i + 1) as u8]);
    }
}

#[test]
fn accounts_fail_with_the_first_bad_entry() {
    let entries = vec![
        account_entry([1u8; 32], encoded_account(&[0], &[1], &[], [8u8; 32])),
        account_entry([2u8; 32], encoded_account(&[9], &[2], &[], [8u8; 32])),
        account_entry([3u8; 32], vec![]),
    ];
    assert_eq!(
        get_registered_accounts(&entries).unwrap_err(),
        DecodeError::InvalidTag
    );
}
