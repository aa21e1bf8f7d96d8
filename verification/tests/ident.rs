use typora_image_upload::ident::{content_identifier, identifier_of_digest};

#[test]
fn identifier_of_empty_content() {
    let id = content_identifier(&[]);
    assert_eq!(
        id.digest,
        [212, 29, 140, 217, 143, 0, 178, 4, 233, 128, 9, 152, 236, 248, 66, 126]
    );
    assert_eq!(id.text, "TGERSPCF02S09TC016CESY22FR");
}

#[test]
fn identifier_of_png_signature() {
    let id = content_identifier(&[0x89, 0x50, 0x4E, 0x47]);
    assert_eq!(
        id.digest,
        [59, 218, 245, 150, 146, 133, 24, 138, 199, 86, 195, 57, 246, 159, 92, 121]
    );
    assert_eq!(id.text, "7FDFB5MJGMC8NHTPRCWZD7TWF4");
}

#[test]
fn identifier_of_alphabet() {
    let id = content_identifier(b"abcdefghijklmnopqrstuvwxyz");
    assert_eq!(id.text, "RFYD7NV1JBJ00ZFV95PCMSZ17C");
}

#[test]
fn identifier_is_deterministic() {
    let bytes = b"hello".to_vec();
    let first = content_identifier(&bytes);
    let second = content_identifier(&bytes);
    assert_eq!(first.text, second.text);
    assert_eq!(first.digest, second.digest);
    assert_eq!(first.text, "BN0M0ANW9CN7DEBHKP8H05Y5J8");
}

#[test]
fn different_content_has_different_identifiers() {
    let first = content_identifier(b"first");
    let second = content_identifier(b"second");
    assert_eq!(first.text, "HC2DBRVQBMMRWY25BVY5S904TM");
    assert_eq!(second.text, "N7REC6GKFP3AN7DN6HJY100P28");
    assert_ne!(first.text, second.text);
}

#[test]
fn digest_is_written_in_crockford_base32() {
    let digest: [u8; 16] = [0, 1, 2, 3, 4, 5, 6, 7, 8, 9, 10, 11, 12, 13, 14, 15];
    let text = identifier_of_digest(&digest);
    assert_eq!(text, "000G40R40M30E209185GR38E1W");
    assert_eq!(identifier_of_digest(&[0xff; 16]), "ZZZZZZZZZZZZZZZZZZZZZZZZZW");
}

#[test]
fn identifier_is_safe_in_a_path_segment() {
    let text = content_identifier(b"anything at all").text;
    assert_eq!(text.len(), 26);
    assert!(text.chars().all(|c| "0123456789ABCDEFGHJKMNPQRSTVWXYZ".contains(c)));
}

fn bit(data: &[u8], k: usize) -> usize {
    if k < 8 * data.len() {
        ((data[k / 8] >> (7 - k % 8)) & 1) as usize
    } else {
        0
    }
}

fn by_bit_stream(data: &[u8]) -> String {
    let alphabet: Vec<char> = "0123456789ABCDEFGHJKMNPQRSTVWXYZ".chars().collect();
    let symbols = (8 * data.len() + 4) / 5;
    let mut text = String::new();
    for i in 0..symbols {
        let mut value = 0;
        for j in 0..5 {
            value = 2 * value + bit(data, 5 * i + j);
        }
        text.push(alphabet[value]);
    }
    text
}

#[test]
fn identifier_reads_the_digest_five_bits_at_a_time() {
    let mut digest = [0u8; 16];
    let mut seed: u32 = 12345;
    for _ in 0..200 {
        for byte in digest.iter_mut() {
            seed = seed.wrapping_mul(1664525).wrapping_add(1013904223);
            *byte = (seed >> 24) as u8;
        }
        assert_eq!(identifier_of_digest(&digest), by_bit_stream(&digest));
    }
    for content in [&b""[..], b"a", b"ab", b"abc", b"abcd", b"abcde", b"abcdef"] {
        let id = content_identifier(content);
        assert_eq!(id.text, by_bit_stream(&id.digest));
    }
}
