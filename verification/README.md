# aporture_client

The front-end logic of the Aporture file-transfer clients (terminal and
graphical), written in Verus and proved against its contracts.

The pairing and transfer protocols themselves live in the Aporture core
library; this crate holds what the clients decide around them:

- `contacts`: the book of saved contacts (name, key, time added) and its laws.
- `passphrase`, `args`, `commands`: how the terminal client chooses a
  passphrase, saves or deletes contacts and counts password prompts.
- `errors`, `peer`: how protocol failures are classified and shown, the
  transfer dialog (title, progress) and the decisions between the steps of a
  transfer (passphrase resolution, which stage is shown when, recording and
  saving the peer as a contact).
- `progress`: the terminal progress bar.
- `app`, `holder`, `preferences`, `confirmation`, `file_chooser`, `send`,
  `receive`, `contact_page`, `contact_row`, `toaster`: the screens of the
  graphical client as state machines from input to effects.

`app/` is the terminal program: argument parsing, prompts, printing and the
calls into the core library.
