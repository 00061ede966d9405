use pallets::kitties::genetics::breed_dna;
use pallets::kitties::genetics::combine_byte;
use pallets::kitties::genetics::random_value;

#[test]
fn combine_byte_masks_the_union_of_the_parents() {
    assert_eq!(combine_byte(0xFF, 0x00, 0x0F), 0x0F);
    assert_eq!(combine_byte(0b1010_0000, 0b0000_0101, 0b1111_0000), 0b1010_0000);
    assert_eq!(combine_byte(0b1010_0000, 0b0000_0101, 0b0000_1111), 0b0000_0101);
    assert_eq!(combine_byte(0x00, 0x00, 0xFF), 0x00);
    assert_eq!(combine_byte(0xFF, 0xFF, 0x00), 0x00);
    assert_eq!(combine_byte(0x12, 0x34, 0xFF), 0x36);
}

#[test]
fn combine_byte_agrees_with_the_mask_formula_on_every_input() {
    for parent1 in 0..=255u8 {
        for parent2 in [0u8, 1, 0x0F, 0x55, 0xAA, 0xF0, 0xFF] {
            for selector in [0u8, 1, 0x0F, 0x33, 0x80, 0xFF] {
                assert_eq!(
                    combine_byte(parent1, parent2, selector),
                    selector & (parent1 | parent2)
                );
            }
        }
    }
}

#[test]
fn breed_dna_of_literal_vectors() {
    let parent1 = [0xFFu8; 16];
    let parent2 = [0x00u8; 16];
    let selector = [0x0Fu8; 16];
    assert_eq!(breed_dna(&parent1, &parent2, &selector), [0x0Fu8; 16]);
}

#[test]
fn breed_dna_mixes_each_position_on_its_own() {
    let parent1: [u8; 16] = [1, 2, 4, 8, 16, 32, 64, 128, 0, 255, 0x0F, 0xF0, 0x55, 0xAA, 3, 7];
    let parent2: [u8; 16] = [128, 64, 32, 16, 8, 4, 2, 1, 0, 0, 0xF0, 0x0F, 0xAA, 0x55, 12, 8];
    let selector: [u8; 16] =
        [255, 0, 36, 24, 8, 255, 2, 128, 255, 0x3C, 0x18, 0xFF, 0x0F, 0xF0, 10, 15];
    let child = breed_dna(&parent1, &parent2, &selector);
    assert_eq!(child, [129, 0, 36, 24, 8, 36, 2, 128, 0, 0x3C, 0x18, 0xFF, 0x0F, 0xF0, 10, 15]);
    for i in 0..16 {
        assert_eq!(child[i], selector[i] & (parent1[i] | parent2[i]));
    }
}

#[test]
fn breed_dna_with_full_and_empty_selector() {
    let parent1: [u8; 16] = [0x12; 16];
    let parent2: [u8; 16] = [0x34; 16];
    assert_eq!(breed_dna(&parent1, &parent2, &[0xFF; 16]), [0x36; 16]);
    assert_eq!(breed_dna(&parent1, &parent2, &[0x00; 16]), [0x00; 16]);
}

#[test]
fn random_value_is_the_digest_of_seed_caller_and_index() {
    assert_eq!(
        random_value(1, &[], None),
        [60, 206, 11, 198, 226, 179, 23, 127, 214, 87, 243, 71, 184, 205, 229, 106]
    );
    let seed: Vec<u8> = (0u8..32).collect();
    assert_eq!(
        random_value(1, &seed, Some(0)),
        [94, 80, 91, 90, 18, 182, 220, 132, 96, 183, 117, 98, 211, 114, 166, 220]
    );
    assert_eq!(
        random_value(0x0102030405060708, &[7u8; 32], Some(0x0a0b0c0d)),
        [139, 42, 57, 205, 212, 136, 207, 123, 68, 27, 1, 104, 152, 116, 235, 178]
    );
}

#[test]
fn random_value_is_deterministic() {
    let seed = [9u8; 32];
    assert_eq!(random_value(5, &seed, Some(3)), random_value(5, &seed, Some(3)));
    assert_eq!(random_value(5, &seed, None), random_value(5, &seed, None));
}

#[test]
fn random_value_depends_on_each_input() {
    let seed = [9u8; 32];
    let value = random_value(5, &seed, Some(3));
    assert_ne!(value, random_value(6, &seed, Some(3)));
    assert_ne!(value, random_value(5, &[8u8; 32], Some(3)));
    assert_ne!(value, random_value(5, &seed, Some(4)));
    assert_ne!(value, random_value(5, &seed, None));
    assert_ne!(random_value(5, &seed, None), random_value(5, &seed, Some(0)));
}
