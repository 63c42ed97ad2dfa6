//! Explicações longas dos códigos de erro, exibidas por `kaju explique Kxxx`.
//!
//! Um código tem a forma `K` seguido de três dígitos. Os textos estão em ordem
//! numérica de código, e todo código que o interpretador emite tem uma entrada.

use vstd::prelude::*;
use crate::lexer::codigo_lexico;
use crate::texto::{caracteres, digito, eh_digito, digito_de};

verus! {

/// O texto tem a forma de um código: `K` seguido de três dígitos decimais.
pub open spec fn tem_forma_codigo(s: Seq<char>) -> bool {
    &&& s.len() == 4
    &&& s[0] == 'K'
    &&& eh_digito(s[1])
    &&& eh_digito(s[2])
    &&& eh_digito(s[3])
}

/// O número escrito nos três dígitos de um código.
pub open spec fn numero_do_codigo(s: Seq<char>) -> int {
    (s[1] as int - '0' as int) * 100 + (s[2] as int - '0' as int) * 10 + (s[3] as int - '0' as int)
}

/// Os números que têm explicação: 1 a 23 (sintaxe), 101 a 104 (léxico) e os
/// de execução 201 a 218, 220 a 222, 224 a 227, 230 e 231.
pub open spec fn numero_conhecido(n: int) -> bool {
    ||| 1 <= n <= 23
    ||| 101 <= n <= 104
    ||| 201 <= n <= 218
    ||| 220 <= n <= 222
    ||| 224 <= n <= 227
    ||| 230 <= n <= 231
}

/// Um código com explicação detalhada.
pub open spec fn eh_codigo_conhecido(s: Seq<char>) -> bool {
    tem_forma_codigo(s) && numero_conhecido(numero_do_codigo(s))
}

/// O código escrito com três dígitos: `formato_codigo(16)` é `K016`.
pub open spec fn formato_codigo(n: nat) -> Seq<char> {
    seq!['K', digito_de(n / 100), digito_de(n / 10 % 10), digito_de(n % 10)]
}

proof fn lema_digito(d: nat)
    requires
        d < 10,
    ensures
        eh_digito(digito_de(d)),
        digito_de(d) as int - '0' as int == d,
{
}

proof fn lema_digito_volta(c: char)
    requires
        eh_digito(c),
    ensures
        digito_de((c as int - '0' as int) as nat) == c,
{
}

/// Escrever um número e lê-lo de volta dá o mesmo número.
proof fn lema_formato_numero(n: nat)
    requires
        n < 1000,
    ensures
        tem_forma_codigo(formato_codigo(n)),
        numero_do_codigo(formato_codigo(n)) == n,
{
    lema_digito(n / 100);
    lema_digito(n / 10 % 10);
    lema_digito(n % 10);
}

/// Ler um código e escrever o número de volta dá o mesmo texto.
proof fn lema_numero_formato(s: Seq<char>)
    requires
        tem_forma_codigo(s),
    ensures
        formato_codigo(numero_do_codigo(s) as nat) =~= s,
{
    let a = s[1] as int - '0' as int;
    let b = s[2] as int - '0' as int;
    let c = s[3] as int - '0' as int;
    let n = numero_do_codigo(s);
    assert(n / 100 == a && n / 10 % 10 == b && n % 10 == c) by (nonlinear_arith)
        requires
            0 <= a < 10,
            0 <= b < 10,
            0 <= c < 10,
            n == a * 100 + b * 10 + c,
    ;
    lema_digito_volta(s[1]);
    lema_digito_volta(s[2]);
    lema_digito_volta(s[3]);
}

fn eh_numero_conhecido(n: u32) -> (r: bool)
    ensures
        r == numero_conhecido(n as int),
{
    (1 <= n && n <= 23) || (101 <= n && n <= 104) || (201 <= n && n <= 218) || (220 <= n && n
        <= 222) || (224 <= n && n <= 227) || (230 <= n && n <= 231)
}

/// O número de um código bem formado, ou `None` se o texto não tem a forma
/// `K` seguido de três dígitos.
fn ler_codigo(codigo: &str) -> (r: Option<u32>)
    ensures
        r is Some <==> tem_forma_codigo(codigo@),
        r matches Some(n) ==> n == numero_do_codigo(codigo@),
{
    let cs = caracteres(codigo);
    if cs.len() != 4 || cs[0] != 'K' || !digito(cs[1]) || !digito(cs[2]) || !digito(cs[3]) {
        return None;
    }
    let a = (cs[1] as u32) - ('0' as u32);
    let b = (cs[2] as u32) - ('0' as u32);
    let c = (cs[3] as u32) - ('0' as u32);
    Some(a * 100 + b * 10 + c)
}

/// O texto estático do código de número `n`.
fn literal_codigo(n: u32) -> (r: &'static str)
    requires
        numero_conhecido(n as int),
    ensures
        r@ == formato_codigo(n as nat),
{
    match n {
        1 => {
            proof {
                reveal_strlit("K001");
            }
            "K001"
        },
        2 => {
            proof {
                reveal_strlit("K002");
            }
            "K002"
        },
        3 => {
            proof {
                reveal_strlit("K003");
            }
            "K003"
        },
        4 => {
            proof {
                reveal_strlit("K004");
            }
            "K004"
        },
        5 => {
            proof {
                reveal_strlit("K005");
            }
            "K005"
        },
        6 => {
            proof {
                reveal_strlit("K006");
            }
            "K006"
        },
        7 => {
            proof {
                reveal_strlit("K007");
            }
            "K007"
        },
        8 => {
            proof {
                reveal_strlit("K008");
            }
            "K008"
        },
        9 => {
            proof {
                reveal_strlit("K009");
            }
            "K009"
        },
        10 => {
            proof {
                reveal_strlit("K010");
            }
            "K010"
        },
        11 => {
            proof {
                reveal_strlit("K011");
            }
            "K011"
        },
        12 => {
            proof {
                reveal_strlit("K012");
            }
            "K012"
        },
        13 => {
            proof {
                reveal_strlit("K013");
            }
            "K013"
        },
        14 => {
            proof {
                reveal_strlit("K014");
            }
            "K014"
        },
        15 => {
            proof {
                reveal_strlit("K015");
            }
            "K015"
        },
        16 => {
            proof {
                reveal_strlit("K016");
            }
            "K016"
        },
        17 => {
            proof {
                reveal_strlit("K017");
            }
            "K017"
        },
        18 => {
            proof {
                reveal_strlit("K018");
            }
            "K018"
        },
        19 => {
            proof {
                reveal_strlit("K019");
            }
            "K019"
        },
        20 => {
            proof {
                reveal_strlit("K020");
            }
            "K020"
        },
        21 => {
            proof {
                reveal_strlit("K021");
            }
            "K021"
        },
        22 => {
            proof {
                reveal_strlit("K022");
            }
            "K022"
        },
        23 => {
            proof {
                reveal_strlit("K023");
            }
            "K023"
        },
        101 => {
            proof {
                reveal_strlit("K101");
            }
            "K101"
        },
        102 => {
            proof {
                reveal_strlit("K102");
            }
            "K102"
        },
        103 => {
            proof {
                reveal_strlit("K103");
            }
            "K103"
        },
        104 => {
            proof {
                reveal_strlit("K104");
            }
            "K104"
        },
        201 => {
            proof {
                reveal_strlit("K201");
            }
            "K201"
        },
        202 => {
            proof {
                reveal_strlit("K202");
            }
            "K202"
        },
        203 => {
            proof {
                reveal_strlit("K203");
            }
            "K203"
        },
        204 => {
            proof {
                reveal_strlit("K204");
            }
            "K204"
        },
        205 => {
            proof {
                reveal_strlit("K205");
            }
            "K205"
        },
        206 => {
            proof {
                reveal_strlit("K206");
            }
            "K206"
        },
        207 => {
            proof {
                reveal_strlit("K207");
            }
            "K207"
        },
        208 => {
            proof {
                reveal_strlit("K208");
            }
            "K208"
        },
        209 => {
            proof {
                reveal_strlit("K209");
            }
            "K209"
        },
        210 => {
            proof {
                reveal_strlit("K210");
            }
            "K210"
        },
        211 => {
            proof {
                reveal_strlit("K211");
            }
            "K211"
        },
        212 => {
            proof {
                reveal_strlit("K212");
            }
            "K212"
        },
        213 => {
            proof {
                reveal_strlit("K213");
            }
            "K213"
        },
        214 => {
            proof {
                reveal_strlit("K214");
            }
            "K214"
        },
        215 => {
            proof {
                reveal_strlit("K215");
            }
            "K215"
        },
        216 => {
            proof {
                reveal_strlit("K216");
            }
            "K216"
        },
        217 => {
            proof {
                reveal_strlit("K217");
            }
            "K217"
        },
        218 => {
            proof {
                reveal_strlit("K218");
            }
            "K218"
        },
        220 => {
            proof {
                reveal_strlit("K220");
            }
            "K220"
        },
        221 => {
            proof {
                reveal_strlit("K221");
            }
            "K221"
        },
        222 => {
            proof {
                reveal_strlit("K222");
            }
            "K222"
        },
        224 => {
            proof {
                reveal_strlit("K224");
            }
            "K224"
        },
        225 => {
            proof {
                reveal_strlit("K225");
            }
            "K225"
        },
        226 => {
            proof {
                reveal_strlit("K226");
            }
            "K226"
        },
        227 => {
            proof {
                reveal_strlit("K227");
            }
            "K227"
        },
        230 => {
            proof {
                reveal_strlit("K230");
            }
            "K230"
        },
        231 => {
            proof {
                reveal_strlit("K231");
            }
            "K231"
        },
        _ => {
            proof {
                reveal_strlit("K231");
            }
            "K231"
        },
    }
}

/// O texto do código de número `n`, que tem explicação.
pub fn codigo_de(n: u32) -> (r: &'static str)
    requires
        numero_conhecido(n as int),
    ensures
        r@ == formato_codigo(n as nat),
        eh_codigo_conhecido(r@),
{
    proof {
        lema_formato_numero(n as nat);
    }
    literal_codigo(n)
}

/// Os códigos de erro léxico têm explicação.
pub proof fn lema_codigos_lexicos(c: Seq<char>)
    requires
        codigo_lexico(c),
    ensures
        eh_codigo_conhecido(c),
{
    reveal_strlit("K101");
    reveal_strlit("K102");
    reveal_strlit("K103");
    reveal_strlit("K104");
}

/// Lista os códigos que têm explicação detalhada, em ordem numérica.
/// Cada código listado é conhecido, e portanto `explicar` tem um texto para ele.
pub fn codigos_conhecidos() -> (r: Vec<&'static str>)
    ensures
        forall|i: int| 0 <= i < r@.len() ==> eh_codigo_conhecido(#[trigger] r@[i]@),
        forall|s: Seq<char>| eh_codigo_conhecido(s) ==> exists|i: int| 0 <= i < r@.len() && #[trigger] r@[i]@ == s,
        forall|i: int, j: int|
            0 <= i < j < r@.len() ==> numero_do_codigo(#[trigger] r@[i]@) < numero_do_codigo(#[trigger] r@[j]@),
{
    let mut r: Vec<&'static str> = Vec::new();
    let mut n: u32 = 0;
    while n < 1000
        invariant
            n <= 1000,
            forall|i: int| 0 <= i < r@.len() ==> eh_codigo_conhecido(#[trigger] r@[i]@),
            forall|i: int| 0 <= i < r@.len() ==> numero_do_codigo(#[trigger] r@[i]@) < n,
            forall|m: nat| m < n && numero_conhecido(m as int) ==> exists|i: int| 0 <= i < r@.len() && #[trigger] r@[i]@ == formato_codigo(m),
            forall|i: int, j: int|
                0 <= i < j < r@.len() ==> numero_do_codigo(#[trigger] r@[i]@) < numero_do_codigo(#[trigger] r@[j]@),
        decreases 1000 - n,
    {
        let ghost anterior = r@;
        if eh_numero_conhecido(n) {
            let c = literal_codigo(n);
            proof {
                lema_formato_numero(n as nat);
            }
            r.push(c);
        }
        assert forall|m: nat| m < n + 1 && numero_conhecido(m as int) implies exists|i: int|
            0 <= i < r@.len() && #[trigger] r@[i]@ == formato_codigo(m) by {
            if m < n {
                let i = choose|i: int| 0 <= i < anterior.len() && #[trigger] anterior[i]@ == formato_codigo(m);
                assert(r@[i] == anterior[i]);
            } else {
                assert(r@[r@.len() - 1]@ == formato_codigo(m));
            }
        }
        n = n + 1;
    }
    assert forall|s: Seq<char>| eh_codigo_conhecido(s) implies exists|i: int| 0 <= i < r@.len() && #[trigger] r@[i]@ == s by {
        lema_numero_formato(s);
        let m = numero_do_codigo(s) as nat;
        assert(m < 1000);
        assert(formato_codigo(m) == s);
    }
    r
}

/// A explicação de K001.
pub const EXPLICACAO_K001: &'static str = "\
K001 — variável não definida

Você usou um nome que não foi declarado (nem com 'var'/'constante', nem
como parâmetro de função). Em geral é um erro de digitação ou uma variável
usada antes de ser criada.

Errado:
    escreva(idde)

Correto:
    var idade = 20
    escreva(idade)

Quando o kaju encontra um nome parecido com um existente, ele sugere:
\"você quis dizer 'idade'?\".

Veja também: K002, K213.";

/// A explicação de K002.
pub const EXPLICACAO_K002: &'static str = "\
K002 — nome de variável esperado

Depois de 'var' ou 'constante' vem o nome da variável.

Errado:
    var = 10

Correto:
    var x = 10

Veja também: K003.";

/// A explicação de K003.
pub const EXPLICACAO_K003: &'static str = "\
K003 — esperava '=' na declaração

Toda variável recebe um valor inicial com '='. Não existe declaração sem valor.

Errado:
    var x 10

Correto:
    var x = 10

Veja também: K002.";

/// A explicação de K004.
pub const EXPLICACAO_K004: &'static str = "\
K004 — parênteses ou parâmetros

Falta '(', ')' ou o nome de um parâmetro numa função, chamada ou indexação.

Errado:
    funcao f a) { }

Correto:
    funcao f(a) { }

Veja também: K201.";

/// A explicação de K005.
pub const EXPLICACAO_K005: &'static str = "\
K005 — esperava '{' ou '}'

Blocos em kaju usam chaves. Um 'se', 'enquanto', 'para', 'funcao', 'classe'
etc. precisa do corpo entre { e }.

Errado:
    se idade >= 18
        escreva(\"maior\")

Correto:
    se idade >= 18 {
        escreva(\"maior\")
    }";

/// A explicação de K006.
pub const EXPLICACAO_K006: &'static str = "\
K006 — laço 'para' mal formado

As duas formas válidas são a contagem numérica e a iteração sobre coleções.

Errado:
    para i 1 ate 10 { ... }

Correto:
    para i de 1 ate 10 { ... }
    para cada item em lista { ... }

Veja também: K205.";

/// A explicação de K007.
pub const EXPLICACAO_K007: &'static str = "\
K007 — atribuição inválida

Só dá para atribuir a uma variável, a um índice ('a[i] = x') ou a um campo
('obj.c = x'). O lado esquerdo de '=' precisa ser um desses.

Errado:
    3 = x

Correto:
    var a = 3
    a = x

Veja também: K009, K217.";

/// A explicação de K008.
pub const EXPLICACAO_K008: &'static str = "\
K008 — esperava uma expressão

O interpretador esperava um valor (número, texto, nome, chamada...) e
encontrou outra coisa (um operador solto, um parêntese de fechamento, o fim
da linha...).

Errado:
    escreva(2 + )
    var x =

Correto:
    escreva(2 + 3)
    var x = 10";

/// A explicação de K009.
pub const EXPLICACAO_K009: &'static str = "\
K009 — reatribuição de constante

Valores declarados com 'constante' não podem ser alterados depois.

Errado:
    constante PI = 3.14
    PI = 4

Correto:
    var raio = 3.14
    raio = 4          // 'var' permite alterar

Veja também: K007.";

/// A explicação de K010.
pub const EXPLICACAO_K010: &'static str = "\
K010 — dicionário mal formado

As chaves de um dicionário são textos, separadas do valor por ':'.

Errado:
    {nome: \"Ana\"}

Correto:
    {\"nome\": \"Ana\"}

Veja também: K210.";

/// A explicação de K011.
pub const EXPLICACAO_K011: &'static str = "\
K011 — nome esperado após '.'

Depois de '.' vem o nome de um campo ou método.

Errado:
    obj.

Correto:
    obj.nome

Veja também: K212, K213.";

/// A explicação de K012.
pub const EXPLICACAO_K012: &'static str = "\
K012 — operação entre tipos incompatíveis

Operadores aritméticos ('-', '*', '/', '%') exigem números dos dois lados.
O '+' também concatena textos, mas '-' entre texto e número não faz sentido.

Errado:
    \"abc\" - 1

Correto:
    \"abc\" + paraTexto(1)   // junta textos -> \"abc1\"
    10 - 1                    // aritmética entre números

Veja também: K203.";

/// A explicação de K013.
pub const EXPLICACAO_K013: &'static str = "\
K013 — corpo de classe mal formado

Dentro de 'classe' só cabem 'construtor', 'metodo' e membros 'estatico'.

Errado:
    classe Gato {
        var nome = \"\"
    }

Correto:
    classe Gato {
        construtor(nome) { isto.nome = nome }
        metodo falar() { escreva(isto.nome) }
    }

Veja também: K214.";

/// A explicação de K014.
pub const EXPLICACAO_K014: &'static str = "\
K014 — uso de 'novo' mal formado

'novo' cria uma instância: 'novo NomeDaClasse(argumentos)'.

Errado:
    novo ()

Correto:
    novo Gato(\"Félix\")

Veja também: K218.";

/// A explicação de K015.
pub const EXPLICACAO_K015: &'static str = "\
K015 — 'tente' mal formado

Um 'tente' precisa de um 'capture (erro) { ... }'; 'finalmente' é opcional.

Errado:
    tente { ... }

Correto:
    tente { ... } capture (erro) { ... } finalmente { ... }

Veja também: K230.";

/// A explicação de K016.
pub const EXPLICACAO_K016: &'static str = "\
K016 — comando de fluxo fora de contexto

'pare' e 'continue' só fazem sentido dentro de um laço ('enquanto'/'para'),
e 'retorne' só dentro de uma função. Uma função também interrompe o alcance
dos laços: um 'pare' dentro de uma função (sem laço próprio) não afeta laços
de fora.

Errado:
    retorne 5          // fora de qualquer função

Correto:
    funcao f() {
        retorne 5
    }";

/// A explicação de K017.
pub const EXPLICACAO_K017: &'static str = "\
K017 — 'importe' mal formado

O caminho é um texto entre aspas; o apelido (opcional) vem após 'como'.

Errado:
    importe utilidades

Correto:
    importe \"utilidades.kaju\"
    importe \"mat.kaju\" como mat

Veja também: K220.";

/// A explicação de K018.
pub const EXPLICACAO_K018: &'static str = "\
K018 — erro na interpolação de texto

A expressão dentro de {chaves} num texto $\"...\" é inválida. Verifique-a; para
uma chave literal, use '{{' e '}}'.

Errado:
    escreva($\"total: {a + }\")

Correto:
    escreva($\"total: {a + b}\")
    escreva($\"use {{chaves}} assim\")   // -> use {chaves} assim

Veja também: K104.";

/// A explicação de K019.
pub const EXPLICACAO_K019: &'static str = "\
K019 — operador condicional sem ':'

A forma é 'condicao ? valorSeVerdadeiro : valorSeFalso'.

Errado:
    x > 0 ? \"pos\"

Correto:
    x > 0 ? \"pos\" : \"neg\"";

/// A explicação de K020.
pub const EXPLICACAO_K020: &'static str = "\
K020 — divisão por zero

Dividir (ou tirar o resto) por zero não é definido.

Errado:
    var x = 10 / 0

Correto:
    se divisor != 0 {
        escreva(10 / divisor)
    } senao {
        escreva(\"não dá pra dividir por zero\")
    }";

/// A explicação de K021.
pub const EXPLICACAO_K021: &'static str = "\
K021 — 'escolha' mal formado

Dentro de 'escolha' só cabem 'caso' (com um ou mais valores) e um 'padrao'.

Errado:
    escolha n {
        1 { ... }
    }

Correto:
    escolha n {
        caso 1 { ... }
        caso 2, 3 { ... }
        padrao { ... }
    }";

/// A explicação de K022.
pub const EXPLICACAO_K022: &'static str = "\
K022 — desempacotamento incompatível

O número de nomes precisa bater com o de valores (ou com o tamanho da lista),
e os alvos devem ser nomes de variáveis.

Errado:
    var a, b, c = [1, 2]

Correto:
    var a, b = [1, 2]
    var a, b, c = 1, 2, 3";

/// A explicação de K023.
pub const EXPLICACAO_K023: &'static str = "\
K023 — argumento posicional depois de nomeado

Numa chamada, os argumentos nomeados ('nome: valor') vêm sempre depois dos
posicionais. Não é possível voltar a um posicional depois de começar a nomear.

Errado:
    criar(nome: \"Ana\", 30)

Correto:
    criar(30, nome: \"Ana\")
    criar(nome: \"Ana\", idade: 30)";

/// A explicação de K101.
pub const EXPLICACAO_K101: &'static str = "\
K101 — caractere inesperado

Apareceu um símbolo que não faz parte do kaju. Confira erros de digitação.
Para 'diferente de' use '!='; para negação lógica, use 'nao'.

Errado:
    se a <> b { ... }
    se @a { ... }

Correto:
    se a != b { ... }
    se nao a { ... }";

/// A explicação de K102.
pub const EXPLICACAO_K102: &'static str = "\
K102 — comentário de bloco não fechado

Um comentário '/*' precisa terminar com '*/'.

Errado:
    /* isto é um comentário

Correto:
    /* isto é um comentário */

Veja também: K103.";

/// A explicação de K103.
pub const EXPLICACAO_K103: &'static str = "\
K103 — texto não fechado

Um texto \"...\" precisa fechar as aspas na mesma linha.

Errado:
    escreva(\"olá)

Correto:
    escreva(\"olá\")

Veja também: K104.";

/// A explicação de K104.
pub const EXPLICACAO_K104: &'static str = "\
K104 — texto interpolado não fechado

Um texto $\"...\" (ou uma chave '{' dentro dele) não foi fechado na mesma linha.

Errado:
    escreva($\"olá {nome)

Correto:
    escreva($\"olá {nome}\")

Veja também: K018, K103.";

/// A explicação de K201.
pub const EXPLICACAO_K201: &'static str = "\
K201 — número de argumentos incorreto

Você chamou uma função (ou método/construtor) com uma quantidade de
argumentos diferente da que ela declara.

Errado:
    funcao soma(a, b) { retorne a + b }
    soma(1)            // faltou um argumento

Correto:
    soma(1, 2)

Veja também: K204.";

/// A explicação de K202.
pub const EXPLICACAO_K202: &'static str = "\
K202 — valor não iterável em 'para cada'

'para cada' percorre listas e dicionários.

Errado:
    para cada x em 42 { ... }

Correto:
    para cada x em [1, 2, 3] { ... }

Veja também: K205.";

/// A explicação de K203.
pub const EXPLICACAO_K203: &'static str = "\
K203 — erro numa função embutida

Uma função da biblioteca padrão recebeu algo inesperado (tipo ou quantidade de
argumentos errada). A mensagem do diagnóstico detalha o que a função esperava.

Errado:
    raiz(\"nove\")       // raiz espera um número
    maiusculas()        // faltou o texto

Correto:
    raiz(9)
    \"ana\".maiusculas()

Veja também: K012, K201.";

/// A explicação de K204.
pub const EXPLICACAO_K204: &'static str = "\
K204 — tentativa de chamar algo que não é função

Você usou '( )' de chamada em um valor que não é uma função.

Errado:
    var x = 10
    x()                // 10 não é função

Correto:
    var dobro = funcao(n) { retorne n * 2 }
    dobro(10)

Veja também: K201, K211.";

/// A explicação de K205.
pub const EXPLICACAO_K205: &'static str = "\
K205 — laço 'para' precisa de números

Os limites de 'para i de A ate B' devem ser números. O passo (em
'para i de A ate B passo P') também precisa ser um número, e não pode ser
zero — um passo zero nunca terminaria o laço.

Errado:
    para i de \"a\" ate 10 { ... }
    para i de 1 ate 10 passo 0 { ... }

Correto:
    para i de 1 ate 10 { ... }
    para i de 10 ate 1 passo -1 { ... }   // contagem regressiva

Veja também: K006, K202.";

/// A explicação de K206.
pub const EXPLICACAO_K206: &'static str = "\
K206 — índice fora da lista/texto

Você acessou uma posição que não existe. Os índices começam em 0 e vão até
tamanho - 1.

Errado:
    var l = [10, 20]
    escreva(l[5])      // só existem l[0] e l[1]

Correto:
    escreva(l[0], l[tamanho(l) - 1])

Veja também: K207, K209.";

/// A explicação de K207.
pub const EXPLICACAO_K207: &'static str = "\
K207 — índice inválido

Índices de lista e texto devem ser inteiros não negativos (0, 1, 2, ...).

Errado:
    lista[-1]
    lista[1.5]

Correto:
    lista[0]
    lista[tamanho(lista) - 1]

Veja também: K206, K209.";

/// A explicação de K208.
pub const EXPLICACAO_K208: &'static str = "\
K208 — chave inexistente no dicionário

Você leu uma chave que não está no dicionário. Para evitar o erro, verifique
antes com '.tem(chave)' ou use '.obtem(chave, padrao)'.

Errado:
    var d = {\"a\": 1}
    escreva(d[\"b\"])   // não existe

Correto:
    escreva(d.obtem(\"b\", 0))       // 0 se não existir
    se d.tem(\"b\") { escreva(d[\"b\"]) }

Veja também: K210.";

/// A explicação de K209.
pub const EXPLICACAO_K209: &'static str = "\
K209 — valor não indexável

Apenas listas, textos e dicionários aceitam indexação com [].

Errado:
    42[0]

Correto:
    [10, 20, 30][0]
    \"abc\"[0]

Veja também: K206, K210.";

/// A explicação de K210.
pub const EXPLICACAO_K210: &'static str = "\
K210 — chave de dicionário deve ser texto

As chaves de um dicionário são textos.

Errado:
    var d = {\"3\": \"tres\"}
    escreva(d[3])

Correto:
    escreva(d[\"3\"])

Veja também: K010, K208.";

/// A explicação de K211.
pub const EXPLICACAO_K211: &'static str = "\
K211 — método usado sem chamá-lo

Métodos precisam ser chamados com parênteses. Sem '( )', você está apenas
referenciando o nome.

Errado:
    escreva(lista.tamanho)

Correto:
    escreva(lista.tamanho())

Veja também: K204, K212.";

/// A explicação de K212.
pub const EXPLICACAO_K212: &'static str = "\
K212 — método inexistente

O tipo (ou a classe do objeto) não tem um método com esse nome. Confira a
grafia e a lista de métodos daquele tipo na documentação da biblioteca
padrão.

Errado:
    [1, 2].gire()

Correto:
    [1, 2].inverta()

Veja também: K211, K213.";

/// A explicação de K213.
pub const EXPLICACAO_K213: &'static str = "\
K213 — membro inexistente no objeto

O objeto não tem esse campo nem método. Confira o nome e a classe do objeto.
Lembre-se de que campos nascem ao atribuir 'isto.campo = ...' no construtor.

Errado:
    classe Gato { construtor(nome) { isto.nome = nome } }
    var g = novo Gato(\"Félix\")
    escreva(g.idade)     // 'idade' nunca foi definido

Correto:
    escreva(g.nome)

Veja também: K212, K214.";

/// A explicação de K214.
pub const EXPLICACAO_K214: &'static str = "\
K214 — 'isto' fora de um método

'isto' referencia a instância atual e só existe dentro de um 'metodo' ou
'construtor' de uma classe.

Errado:
    funcao falar() { escreva(isto.nome) }   // fora de uma classe

Correto:
    classe Gato {
        construtor(nome) { isto.nome = nome }
        metodo falar() { escreva(isto.nome) }
    }

Veja também: K213, K215.";

/// A explicação de K215.
pub const EXPLICACAO_K215: &'static str = "\
K215 — uso inválido de 'base'

'base' só pode ser usado dentro de um método, para chamar a superclasse
('base.metodo()'), e a classe precisa ter uma superclasse (declarada com 'herda').

Errado:
    classe Gato {                 // sem 'herda'
        metodo falar() { base.falar() }
    }

Correto:
    classe Animal { metodo falar() { escreva(\"...\") } }
    classe Gato herda Animal {
        metodo falar() { base.falar() }
    }

Veja também: K214, K216.";

/// A explicação de K216.
pub const EXPLICACAO_K216: &'static str = "\
K216 — superclasse inválida

O nome após 'herda' precisa ser uma classe já definida.

Errado:
    classe Gato herda Animal { ... }   // 'Animal' não existe

Correto:
    classe Animal { ... }
    classe Gato herda Animal { ... }

Veja também: K215, K218.";

/// A explicação de K217.
pub const EXPLICACAO_K217: &'static str = "\
K217 — atribuição de campo em não-objeto

Só objetos (e classes, para campos estáticos) têm campos atribuíveis com '.'.

Errado:
    var x = 42
    x.campo = 1

Correto:
    classe Ponto { construtor() {} }
    var p = novo Ponto()
    p.campo = 1

Veja também: K007, K213.";

/// A explicação de K218.
pub const EXPLICACAO_K218: &'static str = "\
K218 — 'novo' usado com algo que não é classe

O operador 'novo' cria uma instância e precisa de um nome de classe.

Errado:
    var x = 5
    novo x()

Correto:
    classe Ponto { construtor(a) { isto.a = a } }
    novo Ponto(1)

Veja também: K014, K216.";

/// A explicação de K220.
pub const EXPLICACAO_K220: &'static str = "\
K220 — arquivo de módulo não encontrado

Um 'importe' aponta para um arquivo que não existe. O caminho é relativo ao
arquivo que importa.

Errado:
    importe \"naoexiste.kaju\"

Correto:
    importe \"utilidades.kaju\"   // arquivo ao lado deste

Veja também: K017, K221.";

/// A explicação de K221.
pub const EXPLICACAO_K221: &'static str = "\
K221 — erro dentro de um módulo importado

O 'importe' encontrou o arquivo, mas ocorreu um erro ao executá-lo. A nota do
diagnóstico aponta a linha e o erro interno do módulo.

Errado:
    // em util.kaju:  var x = 10 / 0
    importe \"util.kaju\"       // falha ao rodar util.kaju

Correto:
    // corrija o erro dentro de util.kaju e importe de novo
    importe \"util.kaju\"

Veja também: K220.";

/// A explicação de K222.
pub const EXPLICACAO_K222: &'static str = "\
K222 — estouro de inteiro (histórico)

Este código não é mais emitido. Antes, uma operação com inteiros cujo resultado
passasse do alcance de 64 bits parava o programa. Hoje o kaju usa inteiros de
precisão arbitrária: quando o resultado excede esse alcance, ele é promovido
automaticamente, sem perda de precisão.

    var x = 9223372036854775807 + 1   // 9223372036854775808 (exato)

Os valores voltam a caber em 64 bits sempre que possível, então isso é
transparente. Números com casas decimais continuam sendo 'decimal' (f64).";

/// A explicação de K224.
pub const EXPLICACAO_K224: &'static str = "\
K224 — parâmetro nomeado inexistente

Um argumento nomeado usa um nome que a função (ou o construtor) não tem entre
seus parâmetros. Confira a grafia do parâmetro. O parâmetro variádico ('...')
não pode ser passado por nome.

Errado:
    funcao saudar(nome) { ... }
    saudar(nomee: \"Ana\")

Correto:
    saudar(nome: \"Ana\")";

/// A explicação de K225.
pub const EXPLICACAO_K225: &'static str = "\
K225 — argumento informado mais de uma vez

Um parâmetro recebeu valor duas vezes — por exemplo, uma vez por posição e de
novo por nome, ou o mesmo nome repetido.

Errado:
    funcao criar(nome, idade) { ... }
    criar(\"Ana\", nome: \"Bia\")

Correto:
    criar(\"Ana\", 30)
    criar(nome: \"Ana\", idade: 30)";

/// A explicação de K226.
pub const EXPLICACAO_K226: &'static str = "\
K226 — argumentos nomeados não suportados aqui

Argumentos nomeados só funcionam com funções, métodos e construtores definidos
em kaju. Funções embutidas e métodos de coleção (como 'mapeie') recebem os
argumentos apenas por posição.

Errado:
    [1, 2, 3].mapeie(f: dobro)

Correto:
    [1, 2, 3].mapeie(dobro)";

/// A explicação de K227.
pub const EXPLICACAO_K227: &'static str = "\
K227 — espalhamento inválido

O operador '...' (espalhamento) expande uma coleção dentro de um literal ou de
uma lista de argumentos. Em listas e argumentos ele espera uma 'lista'; em
literais de dicionário, um 'dicionario'.

Errado:
    var xs = [...10]
    maximo(...\"texto\")

Correto:
    var xs = [...[1, 2], 3]
    var ys = [...listaA, ...listaB]
    maximo(...numeros)
    var d = {...base, \"nova\": 1}";

/// A explicação de K230.
pub const EXPLICACAO_K230: &'static str = "\
K230 — erro lançado e não capturado

Um 'lance' chegou ao topo do programa sem ser tratado. Envolva o código que
pode falhar em 'tente ... capture'.

Errado:
    lance \"algo deu errado\"    // ninguém captura

Correto:
    tente {
        lance \"algo deu errado\"
    } capture (erro) {
        escreva(\"tratei:\", erro.mensagem)
    }

Veja também: K015.";

/// A explicação de K231.
pub const EXPLICACAO_K231: &'static str = "\
K231 — afirmação falhou

A função 'afirme(condicao)' verifica que a condição é verdadeira; se for falsa,
o programa para com este erro. É útil para escrever testes na própria linguagem.
Você pode passar uma mensagem: 'afirme(condicao, \"mensagem\")'.

Errado:
    afirme(2 + 2 == 5)
    afirme(soma(1, 2) == 4, \"soma deu errado\")

Correto:
    afirme(2 + 2 == 4)
    afirme(soma(1, 2) == 3)

Como um erro de runtime, pode ser capturado com 'tente ... capture'.

Veja também: K230.";

/// O texto da explicação do código de número `n` (vazio se não há).
pub open spec fn explicacao(n: int) -> Seq<char> {
    if n == 1 {
        EXPLICACAO_K001@
    } else if n == 2 {
        EXPLICACAO_K002@
    } else if n == 3 {
        EXPLICACAO_K003@
    } else if n == 4 {
        EXPLICACAO_K004@
    } else if n == 5 {
        EXPLICACAO_K005@
    } else if n == 6 {
        EXPLICACAO_K006@
    } else if n == 7 {
        EXPLICACAO_K007@
    } else if n == 8 {
        EXPLICACAO_K008@
    } else if n == 9 {
        EXPLICACAO_K009@
    } else if n == 10 {
        EXPLICACAO_K010@
    } else if n == 11 {
        EXPLICACAO_K011@
    } else if n == 12 {
        EXPLICACAO_K012@
    } else if n == 13 {
        EXPLICACAO_K013@
    } else if n == 14 {
        EXPLICACAO_K014@
    } else if n == 15 {
        EXPLICACAO_K015@
    } else if n == 16 {
        EXPLICACAO_K016@
    } else if n == 17 {
        EXPLICACAO_K017@
    } else if n == 18 {
        EXPLICACAO_K018@
    } else if n == 19 {
        EXPLICACAO_K019@
    } else if n == 20 {
        EXPLICACAO_K020@
    } else if n == 21 {
        EXPLICACAO_K021@
    } else if n == 22 {
        EXPLICACAO_K022@
    } else if n == 23 {
        EXPLICACAO_K023@
    } else if n == 101 {
        EXPLICACAO_K101@
    } else if n == 102 {
        EXPLICACAO_K102@
    } else if n == 103 {
        EXPLICACAO_K103@
    } else if n == 104 {
        EXPLICACAO_K104@
    } else if n == 201 {
        EXPLICACAO_K201@
    } else if n == 202 {
        EXPLICACAO_K202@
    } else if n == 203 {
        EXPLICACAO_K203@
    } else if n == 204 {
        EXPLICACAO_K204@
    } else if n == 205 {
        EXPLICACAO_K205@
    } else if n == 206 {
        EXPLICACAO_K206@
    } else if n == 207 {
        EXPLICACAO_K207@
    } else if n == 208 {
        EXPLICACAO_K208@
    } else if n == 209 {
        EXPLICACAO_K209@
    } else if n == 210 {
        EXPLICACAO_K210@
    } else if n == 211 {
        EXPLICACAO_K211@
    } else if n == 212 {
        EXPLICACAO_K212@
    } else if n == 213 {
        EXPLICACAO_K213@
    } else if n == 214 {
        EXPLICACAO_K214@
    } else if n == 215 {
        EXPLICACAO_K215@
    } else if n == 216 {
        EXPLICACAO_K216@
    } else if n == 217 {
        EXPLICACAO_K217@
    } else if n == 218 {
        EXPLICACAO_K218@
    } else if n == 220 {
        EXPLICACAO_K220@
    } else if n == 221 {
        EXPLICACAO_K221@
    } else if n == 222 {
        EXPLICACAO_K222@
    } else if n == 224 {
        EXPLICACAO_K224@
    } else if n == 225 {
        EXPLICACAO_K225@
    } else if n == 226 {
        EXPLICACAO_K226@
    } else if n == 227 {
        EXPLICACAO_K227@
    } else if n == 230 {
        EXPLICACAO_K230@
    } else if n == 231 {
        EXPLICACAO_K231@
    } else {
        Seq::empty()
    }
}

/// Devolve a explicação detalhada de um código de erro, se houver: há texto
/// exatamente para os códigos conhecidos, escritos como `K` e três dígitos.
pub fn explicar(codigo: &str) -> (r: Option<&'static str>)
    ensures
        r is Some <==> eh_codigo_conhecido(codigo@),
        r matches Some(t) ==> t@ == explicacao(numero_do_codigo(codigo@)),
{
    let n = match ler_codigo(codigo) {
        Some(n) => n,
        None => return None,
    };
    let texto = match n {
        1 => EXPLICACAO_K001,
        2 => EXPLICACAO_K002,
        3 => EXPLICACAO_K003,
        4 => EXPLICACAO_K004,
        5 => EXPLICACAO_K005,
        6 => EXPLICACAO_K006,
        7 => EXPLICACAO_K007,
        8 => EXPLICACAO_K008,
        9 => EXPLICACAO_K009,
        10 => EXPLICACAO_K010,
        11 => EXPLICACAO_K011,
        12 => EXPLICACAO_K012,
        13 => EXPLICACAO_K013,
        14 => EXPLICACAO_K014,
        15 => EXPLICACAO_K015,
        16 => EXPLICACAO_K016,
        17 => EXPLICACAO_K017,
        18 => EXPLICACAO_K018,
        19 => EXPLICACAO_K019,
        20 => EXPLICACAO_K020,
        21 => EXPLICACAO_K021,
        22 => EXPLICACAO_K022,
        23 => EXPLICACAO_K023,
        101 => EXPLICACAO_K101,
        102 => EXPLICACAO_K102,
        103 => EXPLICACAO_K103,
        104 => EXPLICACAO_K104,
        201 => EXPLICACAO_K201,
        202 => EXPLICACAO_K202,
        203 => EXPLICACAO_K203,
        204 => EXPLICACAO_K204,
        205 => EXPLICACAO_K205,
        206 => EXPLICACAO_K206,
        207 => EXPLICACAO_K207,
        208 => EXPLICACAO_K208,
        209 => EXPLICACAO_K209,
        210 => EXPLICACAO_K210,
        211 => EXPLICACAO_K211,
        212 => EXPLICACAO_K212,
        213 => EXPLICACAO_K213,
        214 => EXPLICACAO_K214,
        215 => EXPLICACAO_K215,
        216 => EXPLICACAO_K216,
        217 => EXPLICACAO_K217,
        218 => EXPLICACAO_K218,
        220 => EXPLICACAO_K220,
        221 => EXPLICACAO_K221,
        222 => EXPLICACAO_K222,
        224 => EXPLICACAO_K224,
        225 => EXPLICACAO_K225,
        226 => EXPLICACAO_K226,
        227 => EXPLICACAO_K227,
        230 => EXPLICACAO_K230,
        231 => EXPLICACAO_K231,
        _ => return None,
    };
    Some(texto)
}

} // verus!
