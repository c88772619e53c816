//! Handshake and channel behaviour, driven end to end through the public API
//! with the real cryptographic engine underneath.

use revault_net::error::NoiseError;
use revault_net::noise::{
    encrypted_msg_size, KKChannel, KKHandshakeActOne, KKHandshakeActTwo, KKMessageActOne,
    KKMessageActTwo, NoiseEncryptedHeader, NoiseEncryptedMessage, PublicKey, SecretKey,
    KK_MSG_1_SIZE, KK_MSG_2_SIZE, MAC_SIZE, NOISE_MESSAGE_HEADER_SIZE, NOISE_MESSAGE_MAX_SIZE,
    NOISE_PLAINTEXT_MAX_SIZE,
};

fn gen_keypair() -> (PublicKey, SecretKey) {
    let params = "Noise_KK_25519_ChaChaPoly_SHA256".parse().unwrap();
    let keypair = snow::Builder::new(params).generate_keypair().unwrap();
    let mut public = [0u8; 32];
    public.copy_from_slice(&keypair.public);
    let mut secret = [0u8; 32];
    secret.copy_from_slice(&keypair.private);
    (PublicKey(public), SecretKey(secret))
}

/// A pair of channels that completed the handshake with each other.
fn handshaken_channels() -> (KKChannel, KKChannel, PublicKey, PublicKey) {
    let (initiator_pubkey, initiator_privkey) = gen_keypair();
    let (responder_pubkey, responder_privkey) = gen_keypair();

    let (cli_act_1, msg_1) =
        KKHandshakeActOne::initiator(&initiator_privkey, &responder_pubkey).unwrap();

    let serv_act_1 =
        KKHandshakeActOne::responder(&responder_privkey, &[initiator_pubkey], &msg_1).unwrap();
    let (serv_act_2, msg_2) = KKHandshakeActTwo::responder(serv_act_1).unwrap();
    let server_channel = KKChannel::from_handshake(serv_act_2).unwrap();

    let cli_act_2 = KKHandshakeActTwo::initiator(cli_act_1, &msg_2).unwrap();
    let client_channel = KKChannel::from_handshake(cli_act_2).unwrap();

    (client_channel, server_channel, initiator_pubkey, responder_pubkey)
}

#[test]
fn test_bidirectional_roundtrip() {
    let (initiator_pubkey, initiator_privkey) = gen_keypair();
    let (responder_pubkey, responder_privkey) = gen_keypair();

    // client
    let (cli_act_1, msg_1) =
        KKHandshakeActOne::initiator(&initiator_privkey, &responder_pubkey).unwrap();

    // server
    let serv_act_1 =
        KKHandshakeActOne::responder(&responder_privkey, &[initiator_pubkey], &msg_1).unwrap();
    let (serv_act_2, msg_2) = KKHandshakeActTwo::responder(serv_act_1).unwrap();
    let mut server_channel = KKChannel::from_handshake(serv_act_2).unwrap();

    // client
    let cli_act_2 = KKHandshakeActTwo::initiator(cli_act_1, &msg_2).unwrap();
    let mut client_channel = KKChannel::from_handshake(cli_act_2).unwrap();

    // client encrypts message for server
    let msg = "Hello".as_bytes();
    let encrypted_msg = client_channel.encrypt_message(&msg).unwrap();
    assert_eq!(
        encrypted_msg.0.len(),
        msg.len() + NOISE_MESSAGE_HEADER_SIZE + MAC_SIZE
    );
    let (header, body) = (
        &encrypted_msg.0[..NOISE_MESSAGE_HEADER_SIZE],
        &encrypted_msg.0[NOISE_MESSAGE_HEADER_SIZE..],
    );
    println!("{:x?}", header);
    let msg_len = server_channel
        .decrypt_header(&NoiseEncryptedHeader(header.to_vec()))
        .unwrap();
    assert_eq!(msg_len as usize, msg.len() + MAC_SIZE);
    let decrypted_msg = server_channel
        .decrypt_message(&NoiseEncryptedMessage(body.to_vec()))
        .unwrap();
    assert_eq!(msg.to_vec(), decrypted_msg);

    // server encrypts message for client
    let msg = "Goodbye".as_bytes();
    let encrypted_msg = server_channel.encrypt_message(&msg).unwrap();
    let (header, body) = (
        &encrypted_msg.0[..NOISE_MESSAGE_HEADER_SIZE],
        &encrypted_msg.0[NOISE_MESSAGE_HEADER_SIZE..],
    );
    let msg_len = client_channel
        .decrypt_header(&NoiseEncryptedHeader(header.to_vec()))
        .unwrap();
    assert_eq!(msg_len as usize, msg.len() + MAC_SIZE);
    let decrypted_msg = client_channel
        .decrypt_message(&NoiseEncryptedMessage(body.to_vec()))
        .unwrap();
    assert_eq!(msg.to_vec(), decrypted_msg);
}

#[test]
fn test_message_size_limit() {
    let (initiator_pubkey, initiator_privkey) = gen_keypair();
    let (responder_pubkey, responder_privkey) = gen_keypair();

    // client
    let (_, msg_1) = KKHandshakeActOne::initiator(&initiator_privkey, &responder_pubkey).unwrap();

    // server
    let serv_act_1 =
        KKHandshakeActOne::responder(&responder_privkey, &[initiator_pubkey], &msg_1).unwrap();
    let (serv_act_2, _msg_2) = KKHandshakeActTwo::responder(serv_act_1).unwrap();
    let mut server_channel = KKChannel::from_handshake(serv_act_2).unwrap();

    // Hit the limit
    let msg = [0u8; NOISE_PLAINTEXT_MAX_SIZE];
    server_channel
        .encrypt_message(&msg)
        .expect("Maximum allowed");

    // Fail if msg too large
    let msg = [0u8; NOISE_MESSAGE_MAX_SIZE - NOISE_MESSAGE_HEADER_SIZE + 1];
    server_channel
        .encrypt_message(&msg)
        .expect_err("Limit exceeded");

    // We can encrypt an empty message
    let msg = b"";
    server_channel
        .encrypt_message(msg)
        .expect("Empty message is fine to encrypt");

    // We cannot decrypt an empty message
    server_channel
        .decrypt_message(&NoiseEncryptedMessage(msg.to_vec()))
        .expect_err("Encrypted message with no header");
}

#[test]
fn test_bad_messages() {
    let (initiator_pubkey, initiator_privkey) = gen_keypair();
    let (responder_pubkey, responder_privkey) = gen_keypair();

    // KK handshake fails if messages are badly formed.
    // Without a valid cli_act_2 nor serv_act_2, no KKChannel can be constructed.
    let (cli_act_1, _) = KKHandshakeActOne::initiator(&initiator_privkey, &responder_pubkey)
        .expect("The first act is valid.");

    let bad_msg = KKMessageActOne(vec![1u8; KK_MSG_1_SIZE]);
    KKHandshakeActOne::responder(&responder_privkey, &[initiator_pubkey], &bad_msg)
        .expect_err("This one is invalid as bad_msg cannot be decrypted.");

    let bad_msg = KKMessageActTwo(vec![1u8; KK_MSG_2_SIZE]);
    KKHandshakeActTwo::initiator(cli_act_1, &bad_msg).expect_err("So is this one.");
}

#[test]
fn test_zero_messages_rejected() {
    let (initiator_pubkey, initiator_privkey) = gen_keypair();
    let (responder_pubkey, responder_privkey) = gen_keypair();

    let (cli_act_1, _) =
        KKHandshakeActOne::initiator(&initiator_privkey, &responder_pubkey).unwrap();

    let zero_msg = KKMessageActOne(vec![0u8; KK_MSG_1_SIZE]);
    let err = KKHandshakeActOne::responder(&responder_privkey, &[initiator_pubkey], &zero_msg)
        .expect_err("an all-zero first message never authenticates");
    assert_eq!(err, NoiseError::MissingStaticKey);

    let zero_msg = KKMessageActTwo(vec![0u8; KK_MSG_2_SIZE]);
    let err = KKHandshakeActTwo::initiator(cli_act_1, &zero_msg)
        .expect_err("an all-zero second message never authenticates");
    assert_eq!(err, NoiseError::Crypto);
}

#[test]
fn test_candidate_key_search() {
    let (key_a_pub, key_a_priv) = gen_keypair();
    let (key_b_pub, _key_b_priv) = gen_keypair();
    let (responder_pubkey, responder_privkey) = gen_keypair();

    // The initiator authenticates as A; the responder knows A and B.
    let (cli_act_1, msg_1) = KKHandshakeActOne::initiator(&key_a_priv, &responder_pubkey).unwrap();
    let serv_act_1 =
        KKHandshakeActOne::responder(&responder_privkey, &[key_a_pub, key_b_pub], &msg_1).unwrap();
    let (serv_act_2, msg_2) = KKHandshakeActTwo::responder(serv_act_1).unwrap();
    let server_channel = KKChannel::from_handshake(serv_act_2).unwrap();

    let cli_act_2 = KKHandshakeActTwo::initiator(cli_act_1, &msg_2).unwrap();
    let client_channel = KKChannel::from_handshake(cli_act_2).unwrap();

    assert_eq!(server_channel.remote_static().0, key_a_pub.0);
    assert_eq!(client_channel.remote_static().0, responder_pubkey.0);
}

#[test]
fn test_candidate_key_search_second_candidate() {
    let (key_a_pub, _key_a_priv) = gen_keypair();
    let (key_b_pub, key_b_priv) = gen_keypair();
    let (responder_pubkey, responder_privkey) = gen_keypair();

    // The initiator authenticates as B, listed second.
    let (_, msg_1) = KKHandshakeActOne::initiator(&key_b_priv, &responder_pubkey).unwrap();
    let serv_act_1 =
        KKHandshakeActOne::responder(&responder_privkey, &[key_a_pub, key_b_pub], &msg_1).unwrap();
    let (serv_act_2, _) = KKHandshakeActTwo::responder(serv_act_1).unwrap();
    let server_channel = KKChannel::from_handshake(serv_act_2).unwrap();

    assert_eq!(server_channel.remote_static().0, key_b_pub.0);
}

#[test]
fn test_wrong_remote_key() {
    let (initiator_pubkey, initiator_privkey) = gen_keypair();
    let (_responder_pubkey, responder_privkey) = gen_keypair();
    let (other_pubkey, _other_privkey) = gen_keypair();

    // The initiator declares a remote key that is not the responder's.
    let (_, msg_1) = KKHandshakeActOne::initiator(&initiator_privkey, &other_pubkey).unwrap();
    let err = KKHandshakeActOne::responder(&responder_privkey, &[initiator_pubkey], &msg_1)
        .expect_err("the handshake must not succeed under a mismatched key");
    assert_eq!(err, NoiseError::MissingStaticKey);
}

#[test]
fn test_no_candidate_keys() {
    let (_initiator_pubkey, initiator_privkey) = gen_keypair();
    let (responder_pubkey, responder_privkey) = gen_keypair();

    let (_, msg_1) = KKHandshakeActOne::initiator(&initiator_privkey, &responder_pubkey).unwrap();
    let err = KKHandshakeActOne::responder(&responder_privkey, &[], &msg_1)
        .expect_err("no candidate key can validate the caller");
    assert_eq!(err, NoiseError::MissingStaticKey);
}

#[test]
fn test_wrong_protocol_tag() {
    let (initiator_pubkey, initiator_privkey) = gen_keypair();
    let (responder_pubkey, responder_privkey) = gen_keypair();

    // A cryptographically valid first message whose payload is not the
    // protocol tag: built straight on the engine, bypassing the library.
    let params: snow::params::NoiseParams =
        "Noise_KK_25519_ChaChaPoly_SHA256".parse().unwrap();
    let mut state = snow::Builder::new(params)
        .local_private_key(&initiator_privkey.0)
        .unwrap()
        .remote_public_key(&responder_pubkey.0)
        .unwrap()
        .build_initiator()
        .unwrap();
    let mut raw = vec![0u8; KK_MSG_1_SIZE];
    let n = state.write_message(b"practical_revault_X", &mut raw).unwrap();
    assert_eq!(n, KK_MSG_1_SIZE);

    let err = KKHandshakeActOne::responder(
        &responder_privkey,
        &[initiator_pubkey],
        &KKMessageActOne(raw),
    )
    .expect_err("a valid decrypt with the wrong tag is a protocol mismatch");
    assert_eq!(err, NoiseError::BadHandshake);
}

#[test]
fn test_ordering_violation() {
    let (mut client_channel, mut server_channel, _, _) = handshaken_channels();

    let msg = "Hello".as_bytes();
    let encrypted_msg = client_channel.encrypt_message(&msg).unwrap();
    let (_header, body) = (
        &encrypted_msg.0[..NOISE_MESSAGE_HEADER_SIZE],
        &encrypted_msg.0[NOISE_MESSAGE_HEADER_SIZE..],
    );

    // Decrypting the body before its header desynchronizes the nonces:
    // the body was encrypted under the second nonce, not the first.
    let err = server_channel
        .decrypt_message(&NoiseEncryptedMessage(body.to_vec()))
        .expect_err("a body decrypted before its header must fail");
    assert_eq!(err, NoiseError::Crypto);

    // In order, on a fresh pair, the same bytes decrypt fine.
    let (mut client_channel, mut server_channel, _, _) = handshaken_channels();
    let encrypted_msg = client_channel.encrypt_message(&msg).unwrap();
    let first = client_channel.encrypt_message("second".as_bytes()).unwrap();
    let (header, body) = (
        &encrypted_msg.0[..NOISE_MESSAGE_HEADER_SIZE],
        &encrypted_msg.0[NOISE_MESSAGE_HEADER_SIZE..],
    );
    let (header2, _body2) = (
        &first.0[..NOISE_MESSAGE_HEADER_SIZE],
        &first.0[NOISE_MESSAGE_HEADER_SIZE..],
    );

    // Decrypting the second message's header before the first fails too.
    server_channel
        .decrypt_header(&NoiseEncryptedHeader(header2.to_vec()))
        .expect_err("messages decrypted out of send order must fail");

    let msg_len = server_channel
        .decrypt_header(&NoiseEncryptedHeader(header.to_vec()))
        .unwrap();
    assert_eq!(msg_len as usize, body.len());
    let decrypted = server_channel
        .decrypt_message(&NoiseEncryptedMessage(body.to_vec()))
        .unwrap();
    assert_eq!(decrypted, msg.to_vec());
}

#[test]
fn test_size_boundary() {
    let (mut client_channel, _server_channel, _, _) = handshaken_channels();

    // One byte over the maximum plaintext is rejected before any
    // cryptographic work.
    let msg = vec![0u8; NOISE_PLAINTEXT_MAX_SIZE + 1];
    let err = client_channel
        .encrypt_message(&msg)
        .expect_err("one byte over the plaintext maximum");
    assert_eq!(err, NoiseError::InvalidPlaintext);

    // An empty payload still frames to a header and a MAC.
    let empty = client_channel.encrypt_message(&[]).unwrap();
    assert_eq!(empty.0.len(), NOISE_MESSAGE_HEADER_SIZE + MAC_SIZE);
    assert_eq!(empty.0.len(), 34);

    // A body shorter than a MAC is rejected before decryption.
    let err = client_channel
        .decrypt_message(&NoiseEncryptedMessage(vec![0u8; MAC_SIZE - 1]))
        .expect_err("shorter than a MAC");
    assert_eq!(err, NoiseError::InvalidCiphertext);

    // So is one longer than the protocol's absolute maximum.
    let err = client_channel
        .decrypt_message(&NoiseEncryptedMessage(vec![0u8; NOISE_MESSAGE_MAX_SIZE + 1]))
        .expect_err("longer than a wire message may be");
    assert_eq!(err, NoiseError::InvalidCiphertext);
}

#[test]
fn test_encrypted_msg_size() {
    assert_eq!(encrypted_msg_size(0), NOISE_MESSAGE_HEADER_SIZE + MAC_SIZE);
    assert_eq!(encrypted_msg_size(5), 5 + 18 + 16);
    assert_eq!(
        encrypted_msg_size(NOISE_PLAINTEXT_MAX_SIZE),
        NOISE_MESSAGE_MAX_SIZE
    );
}
