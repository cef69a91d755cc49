//! The property classifier: a fixed catalogue of property names that must
//! not be reached through `window`.
//!
//! Each name is a Web API that every execution context offers, so accessing
//! it as `window.<name>` only ties otherwise portable code to the main
//! thread. Membership is an exact, case-sensitive string test with no
//! normalization. Any addition to or removal from the platform surface is
//! made here and nowhere else.

use vstd::prelude::*;
use crate::text::str_eq;

verus! {

/// Whether `s` is one of the denied constructor/class-like global names:
/// event, stream, crypto, IndexedDB, WebGL, file, worker and related type
/// names that a worker context reaches without a `window` prefix.
pub open spec fn denied_constructor_name(s: Seq<char>) -> bool {
    ||| s == "AbortController"@
    ||| s == "AbortSignal"@
    ||| s == "Blob"@
    ||| s == "BroadcastChannel"@
    ||| s == "ByteLengthQueuingStrategy"@
    ||| s == "Cache"@
    ||| s == "CacheStorage"@
    ||| s == "CanvasGradient"@
    ||| s == "CanvasPattern"@
    ||| s == "CloseEvent"@
    ||| s == "CountQueuingStrategy"@
    ||| s == "Crypto"@
    ||| s == "CryptoKey"@
    ||| s == "CustomEvent"@
    ||| s == "DOMException"@
    ||| s == "DOMMatrix"@
    ||| s == "DOMMatrixReadOnly"@
    ||| s == "DOMPoint"@
    ||| s == "DOMPointReadOnly"@
    ||| s == "DOMQuad"@
    ||| s == "DOMRect"@
    ||| s == "DOMRectReadOnly"@
    ||| s == "DOMStringList"@
    ||| s == "ErrorEvent"@
    ||| s == "Event"@
    ||| s == "EventSource"@
    ||| s == "EventTarget"@
    ||| s == "File"@
    ||| s == "FileList"@
    ||| s == "FileReader"@
    ||| s == "FontFace"@
    ||| s == "FontFaceSet"@
    ||| s == "FontFaceSetLoadEvent"@
    ||| s == "FormData"@
    ||| s == "Headers"@
    ||| s == "IDBCursor"@
    ||| s == "IDBCursorWithValue"@
    ||| s == "IDBDatabase"@
    ||| s == "IDBFactory"@
    ||| s == "IDBIndex"@
    ||| s == "IDBKeyRange"@
    ||| s == "IDBObjectStore"@
    ||| s == "IDBOpenDBRequest"@
    ||| s == "IDBRequest"@
    ||| s == "IDBTransaction"@
    ||| s == "IDBVersionChangeEvent"@
    ||| s == "ImageBitmap"@
    ||| s == "ImageBitmapRenderingContext"@
    ||| s == "ImageData"@
    ||| s == "MediaCapabilities"@
    ||| s == "MessageChannel"@
    ||| s == "MessageEvent"@
    ||| s == "MessagePort"@
    ||| s == "NetworkInformation"@
    ||| s == "Notification"@
    ||| s == "Path2D"@
    ||| s == "Performance"@
    ||| s == "PerformanceEntry"@
    ||| s == "PerformanceMark"@
    ||| s == "PerformanceMeasure"@
    ||| s == "PerformanceObserver"@
    ||| s == "PerformanceObserverEntryList"@
    ||| s == "PerformanceResourceTiming"@
    ||| s == "PerformanceServerTiming"@
    ||| s == "PermissionStatus"@
    ||| s == "Permissions"@
    ||| s == "ProgressEvent"@
    ||| s == "PromiseRejectionEvent"@
    ||| s == "PushManager"@
    ||| s == "PushSubscription"@
    ||| s == "PushSubscriptionOptions"@
    ||| s == "ReadableStream"@
    ||| s == "ReadableStreamDefaultController"@
    ||| s == "ReadableStreamDefaultReader"@
    ||| s == "Request"@
    ||| s == "Response"@
    ||| s == "SecurityPolicyViolationEvent"@
    ||| s == "ServiceWorker"@
    ||| s == "ServiceWorkerContainer"@
    ||| s == "ServiceWorkerRegistration"@
    ||| s == "StorageManager"@
    ||| s == "SubtleCrypto"@
    ||| s == "TextDecoder"@
    ||| s == "TextDecoderStream"@
    ||| s == "TextEncoder"@
    ||| s == "TextEncoderStream"@
    ||| s == "TextMetrics"@
    ||| s == "TransformStream"@
    ||| s == "TransformStreamDefaultController"@
    ||| s == "URL"@
    ||| s == "URLSearchParams"@
    ||| s == "WebGL2RenderingContext"@
    ||| s == "WebGLActiveInfo"@
    ||| s == "WebGLBuffer"@
    ||| s == "WebGLContextEvent"@
    ||| s == "WebGLFramebuffer"@
    ||| s == "WebGLProgram"@
    ||| s == "WebGLQuery"@
    ||| s == "WebGLRenderbuffer"@
    ||| s == "WebGLRenderingContext"@
    ||| s == "WebGLSampler"@
    ||| s == "WebGLShader"@
    ||| s == "WebGLShaderPrecisionFormat"@
    ||| s == "WebGLSync"@
    ||| s == "WebGLTexture"@
    ||| s == "WebGLTransformFeedback"@
    ||| s == "WebGLUniformLocation"@
    ||| s == "WebGLVertexArrayObject"@
    ||| s == "WebSocket"@
    ||| s == "Worker"@
    ||| s == "WritableStream"@
    ||| s == "WritableStreamDefaultController"@
    ||| s == "WritableStreamDefaultWriter"@
    ||| s == "XMLHttpRequest"@
    ||| s == "XMLHttpRequestEventTarget"@
    ||| s == "XMLHttpRequestUpload"@
}

/// Whether `s` is one of the denied instance-accessible global functions and
/// properties, normally reached through `self` or `globalThis`.
pub open spec fn denied_instance_name(s: Seq<char>) -> bool {
    ||| s == "console"@
    ||| s == "WebAssembly"@
    ||| s == "name"@
    ||| s == "navigator"@
    ||| s == "self"@
    ||| s == "close"@
    ||| s == "postMessage"@
    ||| s == "dispatchEvent"@
    ||| s == "cancelAnimationFrame"@
    ||| s == "requestAnimationFrame"@
    ||| s == "onerror"@
    ||| s == "onlanguagechange"@
    ||| s == "onmessage"@
    ||| s == "onmessageerror"@
    ||| s == "onoffline"@
    ||| s == "ononline"@
    ||| s == "onrejectionhandled"@
    ||| s == "onunhandledrejection"@
    ||| s == "caches"@
    ||| s == "crossOriginIsolated"@
    ||| s == "crypto"@
    ||| s == "indexedDB"@
    ||| s == "isSecureContext"@
    ||| s == "origin"@
    ||| s == "performance"@
    ||| s == "atob"@
    ||| s == "btoa"@
    ||| s == "clearInterval"@
    ||| s == "clearTimeout"@
    ||| s == "createImageBitmap"@
    ||| s == "fetch"@
    ||| s == "queueMicrotask"@
    ||| s == "setInterval"@
    ||| s == "setTimeout"@
    ||| s == "addEventListener"@
    ||| s == "removeEventListener"@
}

/// Whether `name` is a denied constructor/class-like global name.
pub fn is_denied_constructor_name(name: &str) -> (r: bool)
    ensures
        r == denied_constructor_name(name@),
{
    str_eq(name, "AbortController")
    || str_eq(name, "AbortSignal")
    || str_eq(name, "Blob")
    || str_eq(name, "BroadcastChannel")
    || str_eq(name, "ByteLengthQueuingStrategy")
    || str_eq(name, "Cache")
    || str_eq(name, "CacheStorage")
    || str_eq(name, "CanvasGradient")
    || str_eq(name, "CanvasPattern")
    || str_eq(name, "CloseEvent")
    || str_eq(name, "CountQueuingStrategy")
    || str_eq(name, "Crypto")
    || str_eq(name, "CryptoKey")
    || str_eq(name, "CustomEvent")
    || str_eq(name, "DOMException")
    || str_eq(name, "DOMMatrix")
    || str_eq(name, "DOMMatrixReadOnly")
    || str_eq(name, "DOMPoint")
    || str_eq(name, "DOMPointReadOnly")
    || str_eq(name, "DOMQuad")
    || str_eq(name, "DOMRect")
    || str_eq(name, "DOMRectReadOnly")
    || str_eq(name, "DOMStringList")
    || str_eq(name, "ErrorEvent")
    || str_eq(name, "Event")
    || str_eq(name, "EventSource")
    || str_eq(name, "EventTarget")
    || str_eq(name, "File")
    || str_eq(name, "FileList")
    || str_eq(name, "FileReader")
    || str_eq(name, "FontFace")
    || str_eq(name, "FontFaceSet")
    || str_eq(name, "FontFaceSetLoadEvent")
    || str_eq(name, "FormData")
    || str_eq(name, "Headers")
    || str_eq(name, "IDBCursor")
    || str_eq(name, "IDBCursorWithValue")
    || str_eq(name, "IDBDatabase")
    || str_eq(name, "IDBFactory")
    || str_eq(name, "IDBIndex")
    || str_eq(name, "IDBKeyRange")
    || str_eq(name, "IDBObjectStore")
    || str_eq(name, "IDBOpenDBRequest")
    || str_eq(name, "IDBRequest")
    || str_eq(name, "IDBTransaction")
    || str_eq(name, "IDBVersionChangeEvent")
    || str_eq(name, "ImageBitmap")
    || str_eq(name, "ImageBitmapRenderingContext")
    || str_eq(name, "ImageData")
    || str_eq(name, "MediaCapabilities")
    || str_eq(name, "MessageChannel")
    || str_eq(name, "MessageEvent")
    || str_eq(name, "MessagePort")
    || str_eq(name, "NetworkInformation")
    || str_eq(name, "Notification")
    || str_eq(name, "Path2D")
    || str_eq(name, "Performance")
    || str_eq(name, "PerformanceEntry")
    || str_eq(name, "PerformanceMark")
    || str_eq(name, "PerformanceMeasure")
    || str_eq(name, "PerformanceObserver")
    || str_eq(name, "PerformanceObserverEntryList")
    || str_eq(name, "PerformanceResourceTiming")
    || str_eq(name, "PerformanceServerTiming")
    || str_eq(name, "PermissionStatus")
    || str_eq(name, "Permissions")
    || str_eq(name, "ProgressEvent")
    || str_eq(name, "PromiseRejectionEvent")
    || str_eq(name, "PushManager")
    || str_eq(name, "PushSubscription")
    || str_eq(name, "PushSubscriptionOptions")
    || str_eq(name, "ReadableStream")
    || str_eq(name, "ReadableStreamDefaultController")
    || str_eq(name, "ReadableStreamDefaultReader")
    || str_eq(name, "Request")
    || str_eq(name, "Response")
    || str_eq(name, "SecurityPolicyViolationEvent")
    || str_eq(name, "ServiceWorker")
    || str_eq(name, "ServiceWorkerContainer")
    || str_eq(name, "ServiceWorkerRegistration")
    || str_eq(name, "StorageManager")
    || str_eq(name, "SubtleCrypto")
    || str_eq(name, "TextDecoder")
    || str_eq(name, "TextDecoderStream")
    || str_eq(name, "TextEncoder")
    || str_eq(name, "TextEncoderStream")
    || str_eq(name, "TextMetrics")
    || str_eq(name, "TransformStream")
    || str_eq(name, "TransformStreamDefaultController")
    || str_eq(name, "URL")
    || str_eq(name, "URLSearchParams")
    || str_eq(name, "WebGL2RenderingContext")
    || str_eq(name, "WebGLActiveInfo")
    || str_eq(name, "WebGLBuffer")
    || str_eq(name, "WebGLContextEvent")
    || str_eq(name, "WebGLFramebuffer")
    || str_eq(name, "WebGLProgram")
    || str_eq(name, "WebGLQuery")
    || str_eq(name, "WebGLRenderbuffer")
    || str_eq(name, "WebGLRenderingContext")
    || str_eq(name, "WebGLSampler")
    || str_eq(name, "WebGLShader")
    || str_eq(name, "WebGLShaderPrecisionFormat")
    || str_eq(name, "WebGLSync")
    || str_eq(name, "WebGLTexture")
    || str_eq(name, "WebGLTransformFeedback")
    || str_eq(name, "WebGLUniformLocation")
    || str_eq(name, "WebGLVertexArrayObject")
    || str_eq(name, "WebSocket")
    || str_eq(name, "Worker")
    || str_eq(name, "WritableStream")
    || str_eq(name, "WritableStreamDefaultController")
    || str_eq(name, "WritableStreamDefaultWriter")
    || str_eq(name, "XMLHttpRequest")
    || str_eq(name, "XMLHttpRequestEventTarget")
    || str_eq(name, "XMLHttpRequestUpload")
}

/// Whether `name` is a denied instance-accessible global function or
/// property name.
pub fn is_denied_instance_name(name: &str) -> (r: bool)
    ensures
        r == denied_instance_name(name@),
{
    str_eq(name, "console")
    || str_eq(name, "WebAssembly")
    || str_eq(name, "name")
    || str_eq(name, "navigator")
    || str_eq(name, "self")
    || str_eq(name, "close")
    || str_eq(name, "postMessage")
    || str_eq(name, "dispatchEvent")
    || str_eq(name, "cancelAnimationFrame")
    || str_eq(name, "requestAnimationFrame")
    || str_eq(name, "onerror")
    || str_eq(name, "onlanguagechange")
    || str_eq(name, "onmessage")
    || str_eq(name, "onmessageerror")
    || str_eq(name, "onoffline")
    || str_eq(name, "ononline")
    || str_eq(name, "onrejectionhandled")
    || str_eq(name, "onunhandledrejection")
    || str_eq(name, "caches")
    || str_eq(name, "crossOriginIsolated")
    || str_eq(name, "crypto")
    || str_eq(name, "indexedDB")
    || str_eq(name, "isSecureContext")
    || str_eq(name, "origin")
    || str_eq(name, "performance")
    || str_eq(name, "atob")
    || str_eq(name, "btoa")
    || str_eq(name, "clearInterval")
    || str_eq(name, "clearTimeout")
    || str_eq(name, "createImageBitmap")
    || str_eq(name, "fetch")
    || str_eq(name, "queueMicrotask")
    || str_eq(name, "setInterval")
    || str_eq(name, "setTimeout")
    || str_eq(name, "addEventListener")
    || str_eq(name, "removeEventListener")
}

/// Whether `s` is the platform-specific global object's name.
pub open spec fn denied_platform_name(s: Seq<char>) -> bool {
    s == "Deno"@
}

/// Whether `s` is in the deny-list: the single source of truth the match
/// evaluator consults.
pub open spec fn denied(s: Seq<char>) -> bool {
    denied_constructor_name(s) || denied_instance_name(s) || denied_platform_name(s)
}

/// Whether `name` is in the deny-list.
pub fn is_denied(name: &str) -> (r: bool)
    ensures
        r == denied(name@),
{
    is_denied_constructor_name(name) || is_denied_instance_name(name) || str_eq(name, "Deno")
}

} // verus!
