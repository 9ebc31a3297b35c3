# oo7-daemon

The start of a Secret Service daemon, and a YubiKey scheme that wraps the
keyring's master key.

The master key is a random 32-byte value. It is encrypted under a key derived
from a P-256 agreement between a fresh ephemeral key and the key in a YubiKey PIV
slot. Wrapping needs only the card's public key; recovering has the card perform
the agreement, which waits for a touch.

- `src/` is the verified library. Its functions take and return plain values. The
  multi-step procedures are step functions: given what the last step found, they
  return the next step. `src/crypto.rs` holds everything that is trusted rather
  than proved: the calls into the cryptographic crates.
- `tests/` runs the library against the real crates and against known answers.
- `app/` performs the steps: files, sockets, the session bus, the card.

The card's key is generated with PIN policy "never" and touch policy "always":

```
ykman piv keys generate 82 -a ECCP256 --touch-policy=always --pin-policy=never
ykman piv certificates generate 82 -s "oo7"
oo7-daemon --yubikey-setup
oo7-daemon --yubikey
```
