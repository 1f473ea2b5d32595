use srun::digest::{checksum, checksum_input, password_hash};

#[test]
fn password_hash_known_vectors() {
    assert_eq!(password_hash("abc123", "p1"), "00a61787fa41ac8d958e1d5f86371a63");
    assert_eq!(
        password_hash(
            "e4c3a1b2c3d4e5f60718293a4b5c6d7e8f90a1b2c3d4e5f60718293a4b5c6d7e",
            "s3cret\"q"
        ),
        "047c913799d445d2777faf2adfc87ee6"
    );
    assert_eq!(password_hash("k", "m"), "ed7e724d3a91554aaa2043041d9c5305");
}

#[test]
fn password_hash_is_32_lower_case_hex_characters() {
    for (token, password) in [("", ""), ("abc123", "p1"), ("T", "PASSWORD"), ("tok", "\u{e9}t\u{e9}")] {
        let hash = password_hash(token, password);
        assert_eq!(hash.len(), 32);
        assert!(hash.chars().all(|c| matches!(c, '0'..='9' | 'a'..='f')));
    }
}

#[test]
fn password_hash_depends_on_token_and_password() {
    assert_eq!(password_hash("abc123", "p1"), password_hash("abc123", "p1"));
    assert_ne!(password_hash("abc123", "p1"), password_hash("abc124", "p1"));
    assert_ne!(password_hash("abc123", "p1"), password_hash("abc123", "p2"));
}

#[test]
fn checksum_input_puts_the_token_before_each_field() {
    assert_eq!(
        checksum_input("T", "user", "hash", 12, "1.2.3.4", 200, 1, "info"),
        "TuserThashT12T1.2.3.4T200T1Tinfo"
    );
    assert_eq!(checksum_input("", "u", "h", -1, "", 0, 0, ""), "uh-100");
}

#[test]
fn checksum_known_vector() {
    let info = "{SRBX1}8RAt/0ucK6pvwbq7YE+rKjhiiuPyhBGhfLdCrQ9e5/H4vATjD0/X0s8hPUzSyJ3XexSeAY2taRHzmfpCCRwyrlgje98uw3I/Cknb2n8/E3cXGrUN";
    assert_eq!(
        checksum("abc123", "u1", "00a61787fa41ac8d958e1d5f86371a63", 12, "10.0.0.5", 200, 1, info),
        "741c96461979824ea0bc5c49f55c5e1e66985750"
    );
}

#[test]
fn checksum_is_sensitive_to_the_order_of_its_fields() {
    let info = "{SRBX1}8RAt/0ucK6pvwbq7YE+rKjhiiuPyhBGhfLdCrQ9e5/H4vATjD0/X0s8hPUzSyJ3XexSeAY2taRHzmfpCCRwyrlgje98uw3I/Cknb2n8/E3cXGrUN";
    let hash = "00a61787fa41ac8d958e1d5f86371a63";
    let right = checksum("abc123", "u1", hash, 12, "10.0.0.5", 200, 1, info);
    let swapped = checksum("abc123", hash, "u1", 12, "10.0.0.5", 200, 1, info);
    assert_eq!(swapped, "ae87cd9e8319fc65d308a1af13ad64e6fc24fe59");
    assert_ne!(right, swapped);
    assert_ne!(right, checksum("abc123", "u1", hash, 200, "10.0.0.5", 12, 1, info));
}

#[test]
fn checksum_is_40_lower_case_hex_characters() {
    let sum = checksum("t", "", "", 0, "", 0, 0, "");
    assert_eq!(sum.len(), 40);
    assert!(sum.chars().all(|c| matches!(c, '0'..='9' | 'a'..='f')));
}

#[test]
fn checksum_of_a_known_text() {
    assert_eq!(checksum_input("", "a", "b", 0, "c", 0, 0, ""), "ab0c00");
    assert_eq!(checksum("", "a", "b", 0, "c", 0, 0, ""), "3c67b75c34cec472ad844b5a69b3f737e288e93d");
}
