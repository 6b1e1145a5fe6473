# ohos_ability

The decisions behind an OpenHarmony ability bridge, verified with Verus.

`src/` holds the verified library:

- `callbacks` — the WebView callback registry: declarations per WebView id,
  the subscription snapshot handed to ArkTS, and where each ArkWeb event goes
  (stale controller generations reach nothing; close-window URLs go to the
  close-window callback before the navigation callback).
- `bridge` — the lifecycle of a request made through a thread-safe function
  and answered by an ArkTS Promise (lookup, dispatch, wait, deadline), the
  one-shot reply slot, the create-once store of each thread-safe function,
  and the rejection texts.
- `handoff` — giving a value to a oneshot sender; the record it returns is
  made nowhere else.
- `account`, `opener`, `clipboard` — the account record and the texts and
  checks of the Huawei Account, opener and clipboard requests.
- `window`, `helper` — window creation parameters, the window id counter, the
  helper call made for each window operation, and the cursor-grab outcome.
- `text` — decimal rendering, the Unicode `White_Space` class, prefix tests.
- `laws` — properties that span several calls.

`app/` is the host side: the N-API calls, thread-safe functions, statics and
async waiting, which hand plain values to the library and perform what it
decides.
