# walz

The verified core of walz, a WhatsApp Web desktop client for Linux.

`src/` is a Verus library holding the client's own logic. Its functions carry
contracts that Verus proves, except for a handful of small trusted wrappers
around outside calls, whose contracts Verus takes as given (see below):

- `links`: translating click-to-chat links (`whatsapp:`, `wa.me`,
  `api.whatsapp.com`, `chat.whatsapp.com`) into web-client URLs;
- `commands`: clipboard flavour selection, `text/uri-list` parsing, the files
  handed to the page, Do Not Disturb persistence, pending chats;
- `downloads`: download naming, staging and the decisions after a download;
- `desktop_dnd`: following the desktop's own Do Not Disturb switch;
- `profile`: profiles, their directories, titles and tooltips;
- `tray`: the unread badge drawn on the tray icon, its tooltip and menu;
- `transcription`: the checks and messages around voice-message transcription;
- `single_instance`: the profile's socket name and the wake-up message that
  hands a second launch's link to the running instance;
- `secrets`, `theme`, `mpris`: smaller pieces of state and naming;
- `text`, `encoding`, `paths`, `slot`: shared helpers.

Calls into `url`, `base64`, `image`, `mime_guess` and a few std functions
(`Path`, `DefaultHasher`, `str::from_utf8`, `char::is_alphabetic`,
`String::push`) sit behind those trusted wrappers; each wrapper's doc comment
says what its contract claims of the outside code, and what it leaves unsaid.

`app/` is the Tauri program around the library: windows, the tray, D-Bus,
the secret service, the clipboard, the network and the file system.
