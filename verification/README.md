# unifly-api

The core of a client for UniFi network controllers, verified with Verus.

The controller speaks two dialects: the Integration API (REST, API key) and
the Session API (cookie and CSRF token). This library holds what the client
decides and computes on both, with contracts Verus proves:

- `model`, `integration`, `requests`: the domain types, the records the
  controller returns and the typed requests of commands;
- `convert`: the domain records read from the controller's wire records
  (devices and clients of both APIs, networks, firewall policies and zones, ACL rules, NAT and DNS
  policies, WiFi broadcasts, VPN records, events, reference data);
- `payloads`, `stations`, `stats`: the bodies of create, update and command
  calls, including the merge of an update into a stored record;
- `ports`: switch-port profiles and the override entries a port update or a
  batch apply writes;
- `net`, `text`, `json`, `order`: IP addresses, text, JSON values and stable
  ordering as the rest of the library needs them;
- `auth`, `session`, `lifecycle`, `support`: login decisions, the session
  cache, site resolution, the steps of connecting in each authentication
  mode (including the Hybrid fallback), operation guards and the redaction
  of secrets;
- `websocket`: the event stream's URL, the routing of its messages and the
  fields of the events it announces;
- `refresh`, `sync`: the data merging of a full refresh (Session API
  traffic, reservations and device details completed into the Integration
  API's records, events not seen before) and the integer fields of a live
  device update.

Laws of the library stand as public proof functions beside the functions
they speak of: redaction masks every secret and is idempotent; a port
update leaves the ports it does not name alone and reads back as written;
what a create or update call writes for a DNS record, a NAT rule, a gateway
network or a policy action reads back as written; the text of an IPv4 or
IPv6 address reads back as the same address; a pinned port speed reads
back from its decimal text; applying an export of a device's port overrides
keeps every port's settings; the model name decides a device type regardless of ASCII
case; connecting reaches the connected state in every authentication mode
when every step succeeds, and a Hybrid connection survives a failed Session
login with a warning; a refresh announces each new event once.

`app/` holds what cannot be verified: file access for the session cache,
the JSON bridge to `serde_json`, wire types with serde derives, the loop
that performs the connection steps the library decides, and the parts that
carry floating-point values. `tests/` runs the library on
concrete values.
